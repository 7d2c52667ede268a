//! Decisions of the batch command, which verifies, transcodes and uploads
//! every queued source in turn.
//!
//! The caller performs each stage's work and reports whether it succeeded;
//! these functions decide what happens next.
use crate::text::views_of;
use vstd::prelude::*;
use vstd::string::StringExecFns;

verus! {

/// A stage of processing one queued source.
#[derive(Clone, Copy, Debug, Eq, PartialEq, Structural)]
pub enum ItemStage {
    /// Read the source's id from its torrent file.
    Id,
    /// Fetch the source from the indexer.
    Source,
    /// Verify the source.
    Verify,
    /// Generate spectrograms.
    Spectrogram,
    /// Transcode the source.
    Transcode,
    /// Upload the transcodes.
    Upload,
    /// Save the queue.
    Save,
}

/// Why processing a source stopped after a stage failed.
#[derive(Clone, Copy, Debug, Eq, PartialEq, Structural)]
pub enum ItemFailure {
    /// Transcoding failed.
    Transcode,
    /// Uploading failed.
    Upload,
}

impl ItemFailure {
    /// The reason recorded in the queue.
    pub fn reason(&self) -> (res: &'static str)
        ensures
            res@ == (match self {
                ItemFailure::Transcode => "transcode failed"@,
                ItemFailure::Upload => "upload failed"@,
            }),
    {
        match self {
            ItemFailure::Transcode => "transcode failed",
            ItemFailure::Upload => "upload failed",
        }
    }
}

/// What to do after a stage.
#[derive(Clone, Copy, Debug, Eq, PartialEq, Structural)]
pub enum ItemStep {
    /// Run this stage next.
    Run(ItemStage),
    /// Mark the source skipped and move to the next source.
    Skip,
    /// Mark the source failed and move to the next source.
    Fail(ItemFailure),
    /// The source is processed: count it.
    Done,
    /// End the whole batch with the error.
    Abort,
}

/// Batch settings that decide which stages run.
#[derive(Clone, Copy, Debug)]
pub struct BatchPlan {
    /// Generate spectrograms of verified sources.
    pub spectrogram: bool,
    /// Upload transcodes.
    pub upload: bool,
}

/// The step after `stage` given whether it succeeded: the id, source and
/// verification stages skip the source on failure; spectrograms follow
/// verification only when enabled; a failed transcode or upload fails the
/// source; uploads follow the transcode only when enabled; saving completes
/// the source.
pub open spec fn spec_after(stage: ItemStage, ok: bool, plan: BatchPlan) -> ItemStep {
    match stage {
        ItemStage::Id => if ok {
            ItemStep::Run(ItemStage::Source)
        } else {
            ItemStep::Skip
        },
        ItemStage::Source => if ok {
            ItemStep::Run(ItemStage::Verify)
        } else {
            ItemStep::Skip
        },
        ItemStage::Verify => if !ok {
            ItemStep::Skip
        } else if plan.spectrogram {
            ItemStep::Run(ItemStage::Spectrogram)
        } else {
            ItemStep::Run(ItemStage::Transcode)
        },
        ItemStage::Spectrogram => ItemStep::Run(ItemStage::Transcode),
        ItemStage::Transcode => if !ok {
            ItemStep::Fail(ItemFailure::Transcode)
        } else if plan.upload {
            ItemStep::Run(ItemStage::Upload)
        } else {
            ItemStep::Run(ItemStage::Save)
        },
        ItemStage::Upload => if ok {
            ItemStep::Run(ItemStage::Save)
        } else {
            ItemStep::Fail(ItemFailure::Upload)
        },
        ItemStage::Save => ItemStep::Done,
    }
}

impl BatchPlan {
    /// The first stage of processing a source.
    pub fn first_stage(&self) -> (res: ItemStage)
        ensures
            res == ItemStage::Id,
    {
        ItemStage::Id
    }

    /// The step after `stage`, given whether it succeeded.
    pub fn after(&self, stage: ItemStage, ok: bool) -> (res: ItemStep)
        ensures
            res == spec_after(stage, ok, *self),
    {
        match stage {
            ItemStage::Id => if ok {
                ItemStep::Run(ItemStage::Source)
            } else {
                ItemStep::Skip
            },
            ItemStage::Source => if ok {
                ItemStep::Run(ItemStage::Verify)
            } else {
                ItemStep::Skip
            },
            ItemStage::Verify => if !ok {
                ItemStep::Skip
            } else if self.spectrogram {
                ItemStep::Run(ItemStage::Spectrogram)
            } else {
                ItemStep::Run(ItemStage::Transcode)
            },
            ItemStage::Spectrogram => ItemStep::Run(ItemStage::Transcode),
            ItemStage::Transcode => if !ok {
                ItemStep::Fail(ItemFailure::Transcode)
            } else if self.upload {
                ItemStep::Run(ItemStage::Upload)
            } else {
                ItemStep::Run(ItemStage::Save)
            },
            ItemStage::Upload => if ok {
                ItemStep::Run(ItemStage::Save)
            } else {
                ItemStep::Fail(ItemFailure::Upload)
            },
            ItemStage::Save => ItemStep::Done,
        }
    }
}

/// The step reached by running the stages from `stage` with the successive
/// outcomes `outcomes`; `Run` of the next stage when the outcomes run out.
pub open spec fn spec_run_item(stage: ItemStage, outcomes: Seq<bool>, plan: BatchPlan) -> ItemStep
    decreases outcomes.len(),
{
    if outcomes.len() == 0 {
        ItemStep::Run(stage)
    } else {
        match spec_after(stage, outcomes[0], plan) {
            ItemStep::Run(next) => spec_run_item(next, outcomes.drop_first(), plan),
            other => other,
        }
    }
}

/// The stages a source passes through, before the queue is saved, when
/// every stage succeeds.
pub open spec fn spec_stages(plan: BatchPlan) -> Seq<ItemStage> {
    seq![ItemStage::Id, ItemStage::Source, ItemStage::Verify] + (if plan.spectrogram {
        seq![ItemStage::Spectrogram]
    } else {
        seq![]
    }) + seq![ItemStage::Transcode] + (if plan.upload {
        seq![ItemStage::Upload]
    } else {
        seq![]
    })
}

/// The stage after position `i` of `s` when it succeeds: the next one, or
/// saving after the last.
pub open spec fn next_in(s: Seq<ItemStage>, i: int) -> ItemStage {
    if i + 1 < s.len() {
        s[i + 1]
    } else {
        ItemStage::Save
    }
}

/// Whether every outcome of a stage other than spectrogram generation is a success.
pub open spec fn all_ok(s: Seq<ItemStage>, o: Seq<bool>) -> bool {
    forall|i: int| 0 <= i < o.len() && s[i] != ItemStage::Spectrogram ==> #[trigger] o[i]
}

proof fn lemma_all_ok_split(s: Seq<ItemStage>, o: Seq<bool>)
    requires
        s.len() == o.len(),
        s.len() >= 1,
    ensures
        all_ok(s, o) == ((s[0] == ItemStage::Spectrogram || o[0]) && all_ok(s.drop_first(), o.drop_first())),
{
    let s1 = s.drop_first();
    let o1 = o.drop_first();
    if all_ok(s, o) {
        assert forall|i: int| 0 <= i < o1.len() && s1[i] != ItemStage::Spectrogram implies #[trigger] o1[i] by {
            assert(o1[i] == o[i + 1]);
            assert(s1[i] == s[i + 1]);
        }
    }
    if (s[0] == ItemStage::Spectrogram || o[0]) && all_ok(s1, o1) {
        assert forall|i: int| 0 <= i < o.len() && s[i] != ItemStage::Spectrogram implies #[trigger] o[i] by {
            if i > 0 {
                assert(o1[i - 1] == o[i]);
                assert(s1[i - 1] == s[i]);
            }
        }
    }
}

/// Whether `s` is a chain of stages: each leads to the next on success (the
/// last to saving), only spectrogram generation continues on failure, and it
/// continues as on success.
pub open spec fn is_chain(s: Seq<ItemStage>, plan: BatchPlan) -> bool {
    &&& forall|i: int| 0 <= i < s.len() ==> spec_after(#[trigger] s[i], true, plan) == ItemStep::Run(next_in(s, i))
    &&& forall|i: int| 0 <= i < s.len() ==> (#[trigger] s[i] == ItemStage::Spectrogram <==> spec_after(s[i], false, plan) is Run)
    &&& forall|i: int| 0 <= i < s.len() && #[trigger] s[i] == ItemStage::Spectrogram ==> spec_after(s[i], false, plan) == spec_after(s[i], true, plan)
}

proof fn lemma_chain_tail(s: Seq<ItemStage>, plan: BatchPlan)
    requires
        s.len() >= 2,
        is_chain(s, plan),
    ensures
        is_chain(s.drop_first(), plan),
        next_in(s, 0) == s.drop_first()[0],
{
    let s1 = s.drop_first();
    assert forall|i: int| 0 <= i < s1.len() implies spec_after(#[trigger] s1[i], true, plan) == ItemStep::Run(next_in(s1, i)) by {
        assert(s1[i] == s[i + 1]);
    }
    assert forall|i: int| 0 <= i < s1.len() implies (#[trigger] s1[i] == ItemStage::Spectrogram <==> spec_after(s1[i], false, plan) is Run) by {
        assert(s1[i] == s[i + 1]);
    }
}

proof fn lemma_chain(s: Seq<ItemStage>, o: Seq<bool>, plan: BatchPlan)
    requires
        s.len() == o.len(),
        s.len() >= 1,
        is_chain(s, plan),
    ensures
        spec_run_item(s[0], o, plan) == ItemStep::Run(ItemStage::Save) <==> all_ok(s, o),
    decreases s.len(),
{
    lemma_all_ok_split(s, o);
    assert(spec_after(s[0], true, plan) == ItemStep::Run(next_in(s, 0)));
    assert(s[0] == ItemStage::Spectrogram <==> spec_after(s[0], false, plan) is Run);
    if o[0] || s[0] == ItemStage::Spectrogram {
        assert(spec_after(s[0], o[0], plan) == ItemStep::Run(next_in(s, 0)));
        assert(spec_run_item(s[0], o, plan) == spec_run_item(next_in(s, 0), o.drop_first(), plan));
    } else {
        assert(!(spec_after(s[0], o[0], plan) is Run));
        assert(spec_run_item(s[0], o, plan) == spec_after(s[0], o[0], plan));
    }
    if s.len() == 1 {
        assert(o.drop_first().len() == 0);
        assert(all_ok(s.drop_first(), o.drop_first()));
    } else {
        lemma_chain_tail(s, plan);
        lemma_chain(s.drop_first(), o.drop_first(), plan);
    }
}

/// A source reaches the saving of the queue, after which it is counted as
/// processed, exactly when every stage it passes through succeeds: its id,
/// source, verification, transcode and, when enabled, upload (a failure to
/// generate spectrograms ends the whole batch instead).
pub proof fn processed_iff_every_stage_succeeds(plan: BatchPlan, outcomes: Seq<bool>)
    requires
        outcomes.len() == spec_stages(plan).len(),
    ensures
        spec_run_item(ItemStage::Id, outcomes, plan) == ItemStep::Run(ItemStage::Save) <==> all_ok(
            spec_stages(plan),
            outcomes,
        ),
{
    let s = spec_stages(plan);
    if plan.spectrogram && plan.upload {
        assert(s =~= seq![
            ItemStage::Id,
            ItemStage::Source,
            ItemStage::Verify,
            ItemStage::Spectrogram,
            ItemStage::Transcode,
            ItemStage::Upload,
        ]);
    } else if plan.spectrogram {
        assert(s =~= seq![
            ItemStage::Id,
            ItemStage::Source,
            ItemStage::Verify,
            ItemStage::Spectrogram,
            ItemStage::Transcode,
        ]);
    } else if plan.upload {
        assert(s =~= seq![
            ItemStage::Id,
            ItemStage::Source,
            ItemStage::Verify,
            ItemStage::Transcode,
            ItemStage::Upload,
        ]);
    } else {
        assert(s =~= seq![ItemStage::Id, ItemStage::Source, ItemStage::Verify, ItemStage::Transcode]);
    }
    assert(is_chain(s, plan));
    lemma_chain(s, outcomes, plan);
}

/// Progress of a batch run towards its optional limit of processed sources.
#[derive(Clone, Copy, Debug)]
pub struct BatchProgress {
    /// Number of sources processed so far.
    pub count: usize,
    /// Stop after this many sources, if set.
    pub limit: Option<usize>,
}

impl BatchProgress {
    /// Progress at the start of a batch.
    pub fn new(limit: Option<usize>) -> (res: Self)
        ensures
            res.count == 0,
            res.limit == limit,
    {
        Self { count: 0, limit }
    }

    /// Count a processed source; returns whether the batch limit is reached.
    pub fn record_done(&mut self) -> (stop: bool)
        requires
            old(self).count < usize::MAX,
        ensures
            final(self).count == old(self).count + 1,
            final(self).limit == old(self).limit,
            stop == (final(self).limit matches Some(l) && final(self).count >= l),
    {
        self.count = self.count + 1;
        match self.limit {
            Some(limit) => self.count >= limit,
            None => false,
        }
    }
}


/// The reason recorded when a source fails verification: each violation's
/// message followed by a line break.
pub open spec fn spec_skip_reason(violations: Seq<Seq<char>>) -> Seq<char>
    decreases violations.len(),
{
    if violations.len() == 0 {
        Seq::empty()
    } else {
        spec_skip_reason(violations.drop_last()) + violations.last() + "\n"@
    }
}

/// The reason recorded in the queue for a source that failed verification.
pub fn skip_reason(violations: &Vec<String>) -> (res: String)
    ensures
        res@ == spec_skip_reason(views_of(violations@)),
{
    let mut out = String::new();
    let mut i: usize = 0;
    while i < violations.len()
        invariant
            i <= violations@.len(),
            out@ == spec_skip_reason(views_of(violations@).take(i as int)),
        decreases violations@.len() - i,
    {
        assert(views_of(violations@).take(i + 1).drop_last() =~= views_of(violations@).take(i as int));
        out.append(violations[i].as_str());
        out.append("\n");
        i = i + 1;
    }
    assert(views_of(violations@).take(violations@.len() as int) =~= views_of(violations@));
    out
}


/// Whether the batch may start: every set of options it uses validated.
pub fn validation_gate(options_valid: &Vec<bool>) -> (res: bool)
    ensures
        res == forall|i: int| 0 <= i < options_valid@.len() ==> #[trigger] options_valid@[i],
{
    let mut i: usize = 0;
    while i < options_valid.len()
        invariant
            i <= options_valid@.len(),
            forall|j: int| 0 <= j < i ==> #[trigger] options_valid@[j],
        decreases options_valid@.len() - i,
    {
        if !options_valid[i] {
            return false;
        }
        i = i + 1;
    }
    true
}

/// How a stage ended.
#[derive(Clone, Copy, Debug, Eq, PartialEq, Structural)]
pub enum StageOutcome {
    /// The stage succeeded.
    Succeeded,
    /// The stage completed but did not succeed.
    Failed,
    /// The stage returned an error.
    Errored,
}

/// Whether an error of `stage` ends the whole batch: an error while
/// reading the id or fetching the source only skips the source, and
/// verification reports no error of its own.
pub open spec fn aborts_on_error(stage: ItemStage) -> bool {
    match stage {
        ItemStage::Id | ItemStage::Source | ItemStage::Verify => false,
        _ => true,
    }
}

/// The step after `stage` given how it ended: an error of a stage that
/// aborts on error ends the batch; any other error counts as a failure.
pub open spec fn spec_after_outcome(stage: ItemStage, outcome: StageOutcome, plan: BatchPlan) -> ItemStep {
    if outcome == StageOutcome::Errored && aborts_on_error(stage) {
        ItemStep::Abort
    } else {
        spec_after(stage, outcome == StageOutcome::Succeeded, plan)
    }
}

impl BatchPlan {
    /// The step after `stage`, given how it ended.
    pub fn after_outcome(&self, stage: ItemStage, outcome: StageOutcome) -> (res: ItemStep)
        ensures
            res == spec_after_outcome(stage, outcome, *self),
    {
        let aborts = match stage {
            ItemStage::Id | ItemStage::Source | ItemStage::Verify => false,
            _ => true,
        };
        if outcome == StageOutcome::Errored && aborts {
            ItemStep::Abort
        } else {
            self.after(stage, outcome == StageOutcome::Succeeded)
        }
    }
}

/// A batch is aborted only by an error of a stage that aborts on error,
/// and a stage that did not error steps as it does by success or failure.
pub proof fn batch_aborts_only_on_errors(stage: ItemStage, outcome: StageOutcome, plan: BatchPlan)
    ensures
        spec_after_outcome(stage, outcome, plan) == ItemStep::Abort <==> (outcome == StageOutcome::Errored
            && aborts_on_error(stage)),
        outcome != StageOutcome::Errored ==> spec_after_outcome(stage, outcome, plan) == spec_after(
            stage,
            outcome == StageOutcome::Succeeded,
            plan,
        ),
{
}

} // verus!
