//! Upload descriptions and the status of uploading the transcodes of a source.
use crate::text::owned;
use crate::transcode::jobs::TargetFormat;
use crate::verify::status::TimeStamp;
use vstd::prelude::*;
use vstd::string::StringExecFns;

verus! {

/// Name, version and repository of the application, credited in descriptions.
#[derive(Clone, Debug)]
pub struct PackageInfo {
    /// Package name.
    pub name: String,
    /// Package version.
    pub version: String,
    /// Repository URL.
    pub repository: String,
}

/// Wraps a description line in a quote block.
pub open spec fn quoted(line: Seq<char>) -> Seq<char> {
    "[quote]"@ + line + "[/quote]"@
}

/// The line crediting the application.
pub open spec fn credit_line(p: PackageInfo) -> Seq<char> {
    "Transcoded and uploaded with [url="@ + p.repository@ + "][b]"@ + p.name@ + "[/b] v"@
        + p.version@ + "[/url]"@
}

/// The line linking the source.
pub open spec fn source_line(source_url: Seq<char>, source_title: Seq<char>) -> Seq<char> {
    "[pad=0|10|0|20]Source[/pad] [url="@ + source_url + "]"@ + source_title + "[/url]"@
}

/// The line showing one transcode command.
pub open spec fn command_line(command: Seq<char>) -> Seq<char> {
    "[pad=0|10|0|0]Transcode[/pad] [code]"@ + command + "[/code]"@
}

/// The line holding the details of the transcoded files.
pub open spec fn details_line(details: Seq<char>) -> Seq<char> {
    "[pad=0|10|0|19]Details[/pad] [hide][pre]"@ + details + "[/pre][/hide]"@
}

/// The closing line inviting readers to transcode themselves.
pub open spec fn invite_line(p: PackageInfo) -> Seq<char> {
    "[url="@ + p.repository@ + "]Learn how easy it is to create and upload transcodes yourself![/url]"@
}

/// The quoted lines of every command, in order.
pub open spec fn commands_text(commands: Seq<Seq<char>>) -> Seq<char>
    decreases commands.len(),
{
    if commands.len() == 0 {
        Seq::empty()
    } else {
        commands_text(commands.drop_last()) + quoted(command_line(commands.last()))
    }
}

/// The description of an upload: the credit, the source link, one line per
/// transcode command, the details when known, and the invitation, each in a
/// quote block.
pub open spec fn spec_description(
    p: PackageInfo,
    source_url: Seq<char>,
    source_title: Seq<char>,
    commands: Seq<Seq<char>>,
    details: Option<Seq<char>>,
) -> Seq<char> {
    quoted(credit_line(p)) + quoted(source_line(source_url, source_title)) + commands_text(commands)
        + (match details {
        Some(d) => quoted(details_line(d)),
        None => Seq::empty(),
    }) + quoted(invite_line(p))
}

fn append_quoted_open(out: &mut String)
    ensures
        final(out)@ == old(out)@ + "[quote]"@,
{
    out.append("[quote]");
}

fn append_quoted_close(out: &mut String)
    ensures
        final(out)@ == old(out)@ + "[/quote]"@,
{
    out.append("[/quote]");
}

/// Create the description of an upload of a transcode.
///
/// - `source_url` is the permalink of the source
/// - `source_title` names the source's format
/// - `commands` are the distinct transcode commands
/// - `details` are the details of the transcoded files, if they could be read
pub fn create_description(
    package: &PackageInfo,
    source_url: &str,
    source_title: &str,
    commands: &Vec<String>,
    details: Option<&str>,
) -> (res: String)
    ensures
        res@ == spec_description(
            *package,
            source_url@,
            source_title@,
            Seq::new(commands@.len(), |i: int| commands@[i]@),
            match details {
                Some(d) => Some(d@),
                None => None,
            },
        ),
{
    let mut out = owned("[quote]");
    out.append("Transcoded and uploaded with [url=");
    out.append(package.repository.as_str());
    out.append("][b]");
    out.append(package.name.as_str());
    out.append("[/b] v");
    out.append(package.version.as_str());
    out.append("[/url]");
    append_quoted_close(&mut out);
    append_quoted_open(&mut out);
    out.append("[pad=0|10|0|20]Source[/pad] [url=");
    out.append(source_url);
    out.append("]");
    out.append(source_title);
    out.append("[/url]");
    append_quoted_close(&mut out);
    let ghost head = out@;
    let ghost cmds = Seq::new(commands@.len(), |i: int| commands@[i]@);
    assert(head =~= quoted(credit_line(*package)) + quoted(source_line(source_url@, source_title@)));
    let mut i: usize = 0;
    while i < commands.len()
        invariant
            i <= commands@.len(),
            cmds == Seq::new(commands@.len(), |i: int| commands@[i]@),
            out@ == head + commands_text(cmds.take(i as int)),
        decreases commands@.len() - i,
    {
        append_quoted_open(&mut out);
        out.append("[pad=0|10|0|0]Transcode[/pad] [code]");
        out.append(commands[i].as_str());
        out.append("[/code]");
        append_quoted_close(&mut out);
        assert(cmds.take(i + 1).drop_last() =~= cmds.take(i as int));
        assert(out@ =~= head + commands_text(cmds.take(i + 1)));
        i = i + 1;
    }
    assert(cmds.take(commands@.len() as int) =~= cmds);
    let ghost body = out@;
    if let Some(d) = details {
        append_quoted_open(&mut out);
        out.append("[pad=0|10|0|19]Details[/pad] [hide][pre]");
        out.append(d);
        out.append("[/pre][/hide]");
        append_quoted_close(&mut out);
        assert(out@ =~= body + quoted(details_line(d@)));
    }
    let ghost before_invite = out@;
    append_quoted_open(&mut out);
    out.append("[url=");
    out.append(package.repository.as_str());
    out.append("]Learn how easy it is to create and upload transcodes yourself![/url]");
    append_quoted_close(&mut out);
    assert(out@ =~= before_invite + quoted(invite_line(*package)));
    out
}

/// Status of uploading one format.
#[derive(Clone, Copy, Debug)]
pub struct UploadFormatStatus {
    /// Transcode format.
    pub format: TargetFormat,
    /// Id of the uploaded torrent.
    pub id: u32,
}

/// Result of uploading the transcodes of a source.
#[derive(Clone, Debug)]
pub struct UploadStatus {
    /// Whether every upload succeeded.
    pub success: bool,
    /// Uploaded formats, if any.
    pub formats: Option<Vec<UploadFormatStatus>>,
    /// Time the upload completed.
    pub completed: TimeStamp,
    /// Error messages, if any. Recoverable errors, such as failing to copy a
    /// transcode, may occur while the upload still succeeds.
    pub errors: Option<Vec<String>>,
}

impl UploadStatus {
    /// The status of a finished upload: `errors` and `formats` are kept only
    /// when non-empty.
    pub fn finish(success: bool, completed: TimeStamp, errors: Vec<String>, formats: Vec<UploadFormatStatus>) -> (res: Self)
        ensures
            res.success == success,
            res.completed == completed,
            errors@.len() == 0 ==> res.errors is None,
            errors@.len() > 0 ==> res.errors == Some(errors),
            formats@.len() == 0 ==> res.formats is None,
            formats@.len() > 0 ==> res.formats == Some(formats),
    {
        let errors = if errors.len() == 0 {
            None
        } else {
            Some(errors)
        };
        let formats = if formats.len() == 0 {
            None
        } else {
            Some(formats)
        };
        Self { success, formats, completed, errors }
    }
}


/// A step taken for each target format of an upload, in order.
#[derive(Clone, Copy, Debug, PartialEq, Eq, Structural)]
pub enum UploadStep {
    /// Check that the transcode's `.torrent` file exists.
    CheckTorrent,
    /// Verify the transcode's content against its `.torrent` file.
    VerifyContent,
    /// Copy the `.torrent` file to the configured directory.
    CopyTorrent,
    /// Copy the transcode to the first content directory.
    CopyToContent,
    /// Copy the transcode to the configured directory.
    CopyTranscode,
    /// Log the upload form instead of uploading, as this is a dry run.
    DryRun,
    /// Upload the transcode.
    Upload,
}

/// Which optional steps of an upload are enabled.
#[derive(Clone, Copy, Debug)]
pub struct UploadSteps {
    /// A directory to copy `.torrent` files to is set.
    pub copy_torrent_to: bool,
    /// Transcodes are copied to the content directory.
    pub copy_transcode_to_content_dir: bool,
    /// A directory to copy transcodes to is set.
    pub copy_transcode_to: bool,
    /// Nothing is uploaded.
    pub dry_run: bool,
}

/// The steps for one target: the torrent check and content verification,
/// the enabled copies, then the upload or, in a dry run, its log.
pub open spec fn spec_target_steps(o: UploadSteps) -> Seq<UploadStep> {
    let copies = (if o.copy_torrent_to { seq![UploadStep::CopyTorrent] } else { Seq::empty() })
        + (if o.copy_transcode_to_content_dir { seq![UploadStep::CopyToContent] } else { Seq::empty() })
        + (if o.copy_transcode_to { seq![UploadStep::CopyTranscode] } else { Seq::empty() });
    seq![UploadStep::CheckTorrent, UploadStep::VerifyContent] + copies + seq![
        if o.dry_run { UploadStep::DryRun } else { UploadStep::Upload },
    ]
}

/// Whether a failure of `step` fails the upload and abandons the target;
/// the copies are recoverable.
pub open spec fn spec_is_fatal(step: UploadStep) -> bool {
    match step {
        UploadStep::CopyTorrent | UploadStep::CopyToContent | UploadStep::CopyTranscode => false,
        _ => true,
    }
}

impl UploadStep {
    /// Whether a failure of this step fails the upload and abandons the
    /// target format.
    pub fn is_fatal(&self) -> (res: bool)
        ensures
            res == spec_is_fatal(*self),
    {
        match self {
            UploadStep::CopyTorrent | UploadStep::CopyToContent | UploadStep::CopyTranscode => false,
            _ => true,
        }
    }
}

impl UploadSteps {
    /// The steps taken for each target format, in order.
    pub fn target_steps(&self) -> (res: Vec<UploadStep>)
        ensures
            res@ == spec_target_steps(*self),
    {
        let mut steps: Vec<UploadStep> = Vec::new();
        steps.push(UploadStep::CheckTorrent);
        steps.push(UploadStep::VerifyContent);
        if self.copy_torrent_to {
            steps.push(UploadStep::CopyTorrent);
        }
        if self.copy_transcode_to_content_dir {
            steps.push(UploadStep::CopyToContent);
        }
        if self.copy_transcode_to {
            steps.push(UploadStep::CopyTranscode);
        }
        if self.dry_run {
            steps.push(UploadStep::DryRun);
        } else {
            steps.push(UploadStep::Upload);
        }
        assert(steps@ =~= spec_target_steps(*self));
        steps
    }
}

/// The message of the error raised when a transcode's `.torrent` file is missing.
pub fn missing_torrent_message(path: &str) -> (res: String)
    ensures
        res@ == "The torrent file does not exist: "@ + path@,
{
    let mut s = owned("The torrent file does not exist: ");
    s.append(path);
    s
}

/// What happened at one step of an upload.
#[derive(Clone, Debug)]
pub enum StepOutcome {
    /// The step succeeded without anything to record.
    Succeeded,
    /// The step failed with this message.
    Failed(String),
    /// The upload step uploaded this format.
    Uploaded(UploadFormatStatus),
}

/// Model of a step and its outcome.
pub enum UploadEventView {
    Succeeded(UploadStep),
    Failed(UploadStep, Seq<char>),
    Uploaded(UploadStep, TargetFormat, u32),
}

/// Model of what happened at `step`.
pub open spec fn event_view(step: UploadStep, outcome: StepOutcome) -> UploadEventView {
    match outcome {
        StepOutcome::Succeeded => UploadEventView::Succeeded(step),
        StepOutcome::Failed(message) => UploadEventView::Failed(step, message@),
        StepOutcome::Uploaded(f) => UploadEventView::Uploaded(step, f.format, f.id),
    }
}

/// The step an event happened at.
pub open spec fn event_step(e: UploadEventView) -> UploadStep {
    match e {
        UploadEventView::Succeeded(step) => step,
        UploadEventView::Failed(step, _) => step,
        UploadEventView::Uploaded(step, _, _) => step,
    }
}

/// The step after `step` for a target when `step` succeeded: the steps of
/// [`spec_target_steps`] in order, then none.
pub open spec fn spec_step_after(o: UploadSteps, step: UploadStep) -> Option<UploadStep> {
    let last = if o.dry_run { UploadStep::DryRun } else { UploadStep::Upload };
    let from_copy_transcode = Some(last);
    let from_copy_to_content = if o.copy_transcode_to {
        Some(UploadStep::CopyTranscode)
    } else {
        from_copy_transcode
    };
    let from_copy_torrent = if o.copy_transcode_to_content_dir {
        Some(UploadStep::CopyToContent)
    } else {
        from_copy_to_content
    };
    let from_verify = if o.copy_torrent_to {
        Some(UploadStep::CopyTorrent)
    } else {
        from_copy_torrent
    };
    match step {
        UploadStep::CheckTorrent => Some(UploadStep::VerifyContent),
        UploadStep::VerifyContent => from_verify,
        UploadStep::CopyTorrent => from_copy_torrent,
        UploadStep::CopyToContent => from_copy_to_content,
        UploadStep::CopyTranscode => from_copy_transcode,
        UploadStep::DryRun => None,
        UploadStep::Upload => None,
    }
}

/// The step to run after `step` given whether it succeeded: none after a
/// fatal failure, which abandons the target; otherwise the next of the
/// target's steps, none after the last.
pub open spec fn spec_next_step(o: UploadSteps, step: UploadStep, ok: bool) -> Option<UploadStep> {
    if !ok && spec_is_fatal(step) {
        None
    } else {
        spec_step_after(o, step)
    }
}

impl UploadSteps {
    /// The step to run after `step` for the same target, given whether it
    /// succeeded; `None` when the target is finished or abandoned.
    pub fn next_step(&self, step: UploadStep, ok: bool) -> (res: Option<UploadStep>)
        ensures
            res == spec_next_step(*self, step, ok),
    {
        if !ok && step.is_fatal() {
            return None;
        }
        let last = if self.dry_run { UploadStep::DryRun } else { UploadStep::Upload };
        match step {
            UploadStep::CheckTorrent => Some(UploadStep::VerifyContent),
            UploadStep::VerifyContent => if self.copy_torrent_to {
                Some(UploadStep::CopyTorrent)
            } else if self.copy_transcode_to_content_dir {
                Some(UploadStep::CopyToContent)
            } else if self.copy_transcode_to {
                Some(UploadStep::CopyTranscode)
            } else {
                Some(last)
            },
            UploadStep::CopyTorrent => if self.copy_transcode_to_content_dir {
                Some(UploadStep::CopyToContent)
            } else if self.copy_transcode_to {
                Some(UploadStep::CopyTranscode)
            } else {
                Some(last)
            },
            UploadStep::CopyToContent => if self.copy_transcode_to {
                Some(UploadStep::CopyTranscode)
            } else {
                Some(last)
            },
            UploadStep::CopyTranscode => Some(last),
            UploadStep::DryRun => None,
            UploadStep::Upload => None,
        }
    }
}

/// Starting from the torrent check, the successive steps of a target whose
/// steps all succeed are exactly [`spec_target_steps`]: each step is
/// followed by the next of them, and the last by none.
pub proof fn next_step_follows_target_steps(o: UploadSteps)
    ensures
        spec_target_steps(o)[0] == UploadStep::CheckTorrent,
        forall|i: int|
            0 <= i < spec_target_steps(o).len() ==> #[trigger] spec_next_step(o, spec_target_steps(o)[i], true)
                == (if i + 1 < spec_target_steps(o).len() {
                Some(spec_target_steps(o)[i + 1])
            } else {
                None::<UploadStep>
            }),
{
    let s = spec_target_steps(o);
    assert(s[0] == UploadStep::CheckTorrent);
    assert forall|i: int| 0 <= i < s.len() implies #[trigger] spec_next_step(o, s[i], true) == (if i + 1 < s.len() {
        Some(s[i + 1])
    } else {
        None::<UploadStep>
    }) by {
        if o.copy_torrent_to {
            if o.copy_transcode_to_content_dir {
                if o.copy_transcode_to {
                    assert(s =~= seq![UploadStep::CheckTorrent, UploadStep::VerifyContent, UploadStep::CopyTorrent, UploadStep::CopyToContent, UploadStep::CopyTranscode, s.last()]);
                } else {
                    assert(s =~= seq![UploadStep::CheckTorrent, UploadStep::VerifyContent, UploadStep::CopyTorrent, UploadStep::CopyToContent, s.last()]);
                }
            } else if o.copy_transcode_to {
                assert(s =~= seq![UploadStep::CheckTorrent, UploadStep::VerifyContent, UploadStep::CopyTorrent, UploadStep::CopyTranscode, s.last()]);
            } else {
                assert(s =~= seq![UploadStep::CheckTorrent, UploadStep::VerifyContent, UploadStep::CopyTorrent, s.last()]);
            }
        } else if o.copy_transcode_to_content_dir {
            if o.copy_transcode_to {
                assert(s =~= seq![UploadStep::CheckTorrent, UploadStep::VerifyContent, UploadStep::CopyToContent, UploadStep::CopyTranscode, s.last()]);
            } else {
                assert(s =~= seq![UploadStep::CheckTorrent, UploadStep::VerifyContent, UploadStep::CopyToContent, s.last()]);
            }
        } else if o.copy_transcode_to {
            assert(s =~= seq![UploadStep::CheckTorrent, UploadStep::VerifyContent, UploadStep::CopyTranscode, s.last()]);
        } else {
            assert(s =~= seq![UploadStep::CheckTorrent, UploadStep::VerifyContent, s.last()]);
        }
    }
}

/// The upload of the transcodes of a source, as its steps are reported.
#[derive(Clone, Debug)]
pub struct UploadRun {
    success: bool,
    errors: Vec<String>,
    formats: Vec<UploadFormatStatus>,
}

/// Model of an [`UploadRun`]: whether it still succeeds, the error messages
/// and the uploaded formats, in the order they were reported.
pub struct UploadRunView {
    pub success: bool,
    pub errors: Seq<Seq<char>>,
    pub formats: Seq<(TargetFormat, u32)>,
}

impl View for UploadRun {
    type V = UploadRunView;

    closed spec fn view(&self) -> UploadRunView {
        UploadRunView {
            success: self.success,
            errors: Seq::new(self.errors@.len(), |i: int| self.errors@[i]@),
            formats: Seq::new(self.formats@.len(), |i: int| (self.formats@[i].format, self.formats@[i].id)),
        }
    }
}

/// The run after `event`: a failure records its message and, when fatal,
/// fails the upload; a format uploaded by the upload step is recorded; an
/// upload reported at any other step records nothing.
pub open spec fn spec_record(run: UploadRunView, event: UploadEventView) -> UploadRunView {
    match event {
        UploadEventView::Succeeded(_) => run,
        UploadEventView::Failed(step, message) => UploadRunView {
            success: run.success && !spec_is_fatal(step),
            errors: run.errors.push(message),
            formats: run.formats,
        },
        UploadEventView::Uploaded(step, format, id) => if step == UploadStep::Upload {
            UploadRunView {
                success: run.success,
                errors: run.errors,
                formats: run.formats.push((format, id)),
            }
        } else {
            run
        },
    }
}

/// The run after `events`, from a fresh start.
pub open spec fn spec_replay(events: Seq<UploadEventView>) -> UploadRunView
    decreases events.len(),
{
    if events.len() == 0 {
        UploadRunView { success: true, errors: Seq::empty(), formats: Seq::empty() }
    } else {
        spec_record(spec_replay(events.drop_last()), events.last())
    }
}

impl UploadRun {
    /// A run with nothing reported yet: it succeeds so far.
    pub fn new() -> (res: Self)
        ensures
            res@ == spec_replay(Seq::empty()),
    {
        let res = UploadRun { success: true, errors: Vec::new(), formats: Vec::new() };
        assert(res@.errors =~= Seq::<Seq<char>>::empty());
        assert(res@.formats =~= Seq::<(TargetFormat, u32)>::empty());
        res
    }

    /// Record what happened at a step.
    pub fn record(&mut self, step: UploadStep, outcome: StepOutcome)
        ensures
            final(self)@ == spec_record(old(self)@, event_view(step, outcome)),
    {
        let ghost before = self@;
        let ghost ev = event_view(step, outcome);
        match outcome {
            StepOutcome::Succeeded => {},
            StepOutcome::Failed(message) => {
                if step.is_fatal() {
                    self.success = false;
                }
                let ghost m = message@;
                self.errors.push(message);
                assert(self@.errors =~= before.errors.push(m));
                assert(self@.formats =~= before.formats);
            },
            StepOutcome::Uploaded(status) => {
                if step == UploadStep::Upload {
                    self.formats.push(status);
                    assert(self@.formats =~= before.formats.push((status.format, status.id)));
                    assert(self@.errors =~= before.errors);
                }
            },
        }
    }

    /// Whether the upload still succeeds.
    pub fn success(&self) -> (res: bool)
        ensures
            res == self@.success,
    {
        self.success
    }

    /// The status of the finished upload: errors and formats are kept only
    /// when there are some.
    pub fn finish(self, completed: TimeStamp) -> (res: UploadStatus)
        ensures
            res.success == self@.success,
            res.completed == completed,
            res.errors matches Some(e) ==> e@.len() > 0 && Seq::new(e@.len(), |i: int| e@[i]@) == self@.errors,
            res.errors is None <==> self@.errors.len() == 0,
            res.formats matches Some(f) ==> f@.len() > 0 && Seq::new(f@.len(), |i: int| (f@[i].format, f@[i].id)) == self@.formats,
            res.formats is None <==> self@.formats.len() == 0,
    {
        UploadStatus::finish(self.success, completed, self.errors, self.formats)
    }
}

/// An upload succeeds exactly when no fatal step failed; every failure is
/// kept as an error, recoverable ones too, in the order reported.
pub proof fn upload_succeeds_iff_no_fatal_failure(events: Seq<UploadEventView>)
    ensures
        spec_replay(events).success <==> forall|i: int|
            0 <= i < events.len() ==> !(#[trigger] events[i] matches UploadEventView::Failed(step, _)
                && spec_is_fatal(step)),
        spec_replay(events).errors.len() == events.filter(|e: UploadEventView| e is Failed).len(),
    decreases events.len(),
{
    if events.len() > 0 {
        let init = events.drop_last();
        upload_succeeds_iff_no_fatal_failure(init);
        reveal_with_fuel(Seq::filter, 1);
        assert(events.drop_last() =~= init);
        if spec_replay(events).success {
            assert forall|i: int| 0 <= i < events.len() implies !(#[trigger] events[i] matches UploadEventView::Failed(step, _)
                && spec_is_fatal(step)) by {
                if i < init.len() {
                    assert(init[i] == events[i]);
                }
            }
        } else {
            if spec_replay(init).success {
                assert(events[events.len() - 1] == events.last());
            } else {
                let j = choose|j: int| 0 <= j < init.len() && (#[trigger] init[j] matches UploadEventView::Failed(step, _)
                    && spec_is_fatal(step));
                assert(events[j] == init[j]);
            }
        }
    }
}

/// A dry run uploads nothing: when every reported step is one of a dry
/// run's target steps, the run holds no uploaded format.
pub proof fn dry_run_uploads_nothing(o: UploadSteps, events: Seq<UploadEventView>)
    requires
        o.dry_run,
        forall|i: int| 0 <= i < events.len() ==> spec_target_steps(o).contains(#[trigger] event_step(events[i])),
    ensures
        spec_replay(events).formats.len() == 0,
    decreases events.len(),
{
    if events.len() > 0 {
        let init = events.drop_last();
        assert forall|i: int| 0 <= i < init.len() implies spec_target_steps(o).contains(#[trigger] event_step(init[i])) by {
            assert(init[i] == events[i]);
        }
        dry_run_uploads_nothing(o, init);
        assert(spec_target_steps(o).contains(event_step(events[events.len() - 1])));
        let s = spec_target_steps(o);
        assert(!s.contains(UploadStep::Upload)) by {
            if s.contains(UploadStep::Upload) {
                let k = choose|k: int| 0 <= k < s.len() && s[k] == UploadStep::Upload;
                assert(k < s.len());
            }
        }
    }
}

} // verus!
