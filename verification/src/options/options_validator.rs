//! Validator helper for collecting [`OptionIssue`]s.
use crate::options::option_issue::{
    single_key, spec_is_snake_case, spec_render, url_invalid_view, IssueView, OptionIssue,
    OptionIssueKind,
};
use crate::text::{ends_with_char, owned, spec_starts_with, starts_with, views_of};
use vstd::prelude::*;

verus! {

/// Models of a sequence of issues.
pub open spec fn issues_view(v: Seq<OptionIssue>) -> Seq<IssueView> {
    Seq::new(v.len(), |i: int| v[i]@)
}

/// Reason given when a URL has neither an `http://` nor an `https://` scheme.
pub open spec fn scheme_reason() -> Seq<char> {
    "must start with http:// or https://"@
}

/// Reason given when a URL ends with a slash.
pub open spec fn slash_reason() -> Seq<char> {
    "must not end with a trailing slash"@
}

/// The reasons why `url` is not an acceptable indexer URL, in order.
pub open spec fn url_reasons(url: Seq<char>) -> Seq<Seq<char>> {
    (if !spec_starts_with(url, "http://"@) && !spec_starts_with(url, "https://"@) {
        seq![scheme_reason()]
    } else {
        Seq::empty()
    }) + (if url.len() > 0 && url.last() == '/' {
        seq![slash_reason()]
    } else {
        Seq::empty()
    })
}

/// A URL is accepted exactly when it starts with `http://` or `https://` and
/// does not end with `/`. The scheme reason is given exactly when it starts
/// with neither, the slash reason exactly when it ends with `/`, the scheme
/// reason first, and no other reason is ever given.
pub proof fn url_reasons_follow_scheme_and_slash(url: Seq<char>)
    ensures
        url_reasons(url).len() == 0 <==> ((spec_starts_with(url, "http://"@) || spec_starts_with(
            url,
            "https://"@,
        )) && !(url.len() > 0 && url.last() == '/')),
        url_reasons(url).contains(scheme_reason()) <==> (!spec_starts_with(url, "http://"@)
            && !spec_starts_with(url, "https://"@)),
        url_reasons(url).contains(slash_reason()) <==> (url.len() > 0 && url.last() == '/'),
        url_reasons(url).len() > 0 && !(url.len() > 0 && url.last() == '/') ==> url_reasons(url)
            == seq![scheme_reason()],
        forall|i: int|
            0 <= i < url_reasons(url).len() ==> #[trigger] url_reasons(url)[i] == scheme_reason()
                || url_reasons(url)[i] == slash_reason(),
        url_reasons(url).len() == 2 ==> url_reasons(url)[0] == scheme_reason()
            && url_reasons(url)[1] == slash_reason(),
{
    reveal_strlit("must start with http:// or https://");
    reveal_strlit("must not end with a trailing slash");
    let scheme = !spec_starts_with(url, "http://"@) && !spec_starts_with(url, "https://"@);
    let slash = url.len() > 0 && url.last() == '/';
    let r = url_reasons(url);
    assert(scheme_reason()[5] != slash_reason()[5]);
    assert(scheme_reason() != slash_reason());
    if scheme && slash {
        assert(r =~= seq![scheme_reason(), slash_reason()]);
        assert(r[0] == scheme_reason() && r[1] == slash_reason());
    } else if scheme {
        assert(r =~= seq![scheme_reason()]);
        assert(r[0] == scheme_reason());
    } else if slash {
        assert(r =~= seq![slash_reason()]);
        assert(r[0] == slash_reason());
    } else {
        assert(r =~= Seq::<Seq<char>>::empty());
    }
}

/// Collects [`OptionIssue`]s emitted while validating resolved options.
///
/// Use [`Self::push`] for bespoke cases not covered by a helper.
#[derive(Debug, Default)]
pub struct OptionsValidator {
    issues: Vec<OptionIssue>,
}

impl View for OptionsValidator {
    type V = Seq<IssueView>;

    closed spec fn view(&self) -> Seq<IssueView> {
        issues_view(self.issues@)
    }
}

/// A call on a validator, by what it was given: each helper with its
/// arguments, the directory check with the file system's answer.
pub enum ValidatorCall {
    /// [`OptionsValidator::push`] of an issue.
    Push(IssueView),
    /// [`OptionsValidator::check_set`] of an id, and whether the value is set.
    CheckSet(Seq<char>, bool),
    /// [`OptionsValidator::check_url`] of an id and a URL.
    CheckUrl(Seq<char>, Seq<char>),
    /// [`OptionsValidator::check_dir_found`] of an id, a path, and whether it
    /// is a directory.
    CheckDir(Seq<char>, Seq<char>, bool),
    /// [`OptionsValidator::check_non_empty`] of an id, and whether the value
    /// is empty.
    CheckNonEmpty(Seq<char>, bool),
    /// [`OptionsValidator::check_dependent`] of an option, whether it is
    /// present, the option it needs, and whether that one is present.
    CheckDependent(Seq<char>, bool, Seq<char>, bool),
}

/// The issues a call appends: none, or the one issue its helper reports.
pub open spec fn call_issues(c: ValidatorCall) -> Seq<IssueView> {
    match c {
        ValidatorCall::Push(issue) => seq![issue],
        ValidatorCall::CheckSet(id, is_set) => if is_set {
            seq![]
        } else {
            seq![single_key(id, OptionIssueKind::Required, seq![])]
        },
        ValidatorCall::CheckUrl(id, url) => if url_reasons(url).len() == 0 {
            seq![]
        } else {
            seq![url_invalid_view(id, url, url_reasons(url))]
        },
        ValidatorCall::CheckDir(id, path, is_dir) => if is_dir {
            seq![]
        } else {
            seq![single_key(id, OptionIssueKind::DirectoryNotFound, seq![("path"@, path)])]
        },
        ValidatorCall::CheckNonEmpty(id, is_empty) => if is_empty {
            seq![single_key(id, OptionIssueKind::RequiredNonEmpty, seq![])]
        } else {
            seq![]
        },
        ValidatorCall::CheckDependent(id, present, needed, needed_present) => if present
            && !needed_present {
            seq![IssueView { keys: seq![id, needed], kind: OptionIssueKind::DependencyMissing, additional: seq![] }]
        } else {
            seq![]
        },
    }
}

/// The issues of a fresh validator after `calls`, in order.
pub open spec fn issues_after(calls: Seq<ValidatorCall>) -> Seq<IssueView>
    decreases calls.len(),
{
    if calls.len() == 0 {
        Seq::empty()
    } else {
        issues_after(calls.drop_last()) + call_issues(calls.last())
    }
}

/// A validator keeps every issue: after any sequence of calls each call's
/// issues follow those of the calls before it, and later calls never drop,
/// change or reorder an issue already collected.
pub proof fn validator_keeps_every_issue(calls: Seq<ValidatorCall>)
    ensures
        forall|k: int|
            0 <= k < calls.len() ==> #[trigger] issues_after(calls.take(k + 1)) == issues_after(calls.take(k))
                + call_issues(calls[k]),
        forall|k: int|
            0 <= k <= calls.len() ==> #[trigger] issues_after(calls.take(k)).len() <= issues_after(calls).len()
                && issues_after(calls).subrange(0, issues_after(calls.take(k)).len() as int)
                == issues_after(calls.take(k)),
    decreases calls.len(),
{
    assert forall|k: int| 0 <= k < calls.len() implies #[trigger] issues_after(calls.take(k + 1)) == issues_after(
        calls.take(k),
    ) + call_issues(calls[k]) by {
        assert(calls.take(k + 1).drop_last() =~= calls.take(k));
        assert(calls.take(k + 1).last() == calls[k]);
    }
    if calls.len() > 0 {
        let init = calls.drop_last();
        validator_keeps_every_issue(init);
        assert(calls.take(calls.len() as int) =~= calls);
        assert forall|k: int| 0 <= k <= calls.len() implies #[trigger] issues_after(calls.take(k)).len()
            <= issues_after(calls).len() && issues_after(calls).subrange(
            0,
            issues_after(calls.take(k)).len() as int,
        ) == issues_after(calls.take(k)) by {
            if k < calls.len() {
                assert(init.take(k) =~= calls.take(k));
                let a = issues_after(init.take(k));
                let b = issues_after(init);
                assert(init.take(init.len() as int) =~= init);
                assert(issues_after(calls) == b + call_issues(calls.last()));
                assert(b.subrange(0, a.len() as int) == a);
                assert((b + call_issues(calls.last())).subrange(0, a.len() as int) =~= b.subrange(
                    0,
                    a.len() as int,
                ));
            } else {
                assert(issues_after(calls).subrange(0, issues_after(calls).len() as int) =~= issues_after(
                    calls,
                ));
            }
        }
    }
}

impl OptionsValidator {
    /// Create an empty [`Self`].
    pub fn new() -> (res: Self)
        ensures
            res@ == Seq::<IssueView>::empty(),
            res@ == issues_after(Seq::empty()),
    {
        let res = Self { issues: Vec::new() };
        assert(res@ =~= Seq::<IssueView>::empty());
        res
    }

    /// Consume self and return the collected issues.
    pub fn into_issues(self) -> (res: Vec<OptionIssue>)
        ensures
            issues_view(res@) == self@,
    {
        self.issues
    }

    /// Check for issues.
    ///
    /// - Returns `true` if no issues were collected.
    /// - Returns `false` if any issues were collected.
    pub fn check(&self) -> (res: bool)
        ensures
            res == (self@.len() == 0),
    {
        self.issues.len() == 0
    }

    /// The lines logged when [`Self::check`] fails: nothing when there are no
    /// issues, else a headline followed by each issue's text, in order.
    pub fn report(&self) -> (res: Vec<String>)
        ensures
            views_of(res@) == (if self@.len() == 0 {
                Seq::empty()
            } else {
                seq!["Invalid configuration"@] + Seq::new(self@.len(), |i: int| spec_render(self@[i]))
            }),
    {
        let mut lines: Vec<String> = Vec::new();
        if self.issues.len() == 0 {
            assert(views_of(lines@) =~= Seq::<Seq<char>>::empty());
            return lines;
        }
        lines.push(owned("Invalid configuration"));
        let mut i: usize = 0;
        while i < self.issues.len()
            invariant
                i <= self.issues@.len(),
                lines@.len() == i + 1,
                lines@[0]@ == "Invalid configuration"@,
                forall|k: int| 1 <= k <= i ==> (#[trigger] lines@[k])@ == spec_render(self.issues@[k - 1]@),
            decreases self.issues@.len() - i,
        {
            let text = self.issues[i].to_string();
            lines.push(text);
            i = i + 1;
        }
        assert(views_of(lines@) =~= seq!["Invalid configuration"@] + Seq::new(
            self@.len(),
            |i: int| spec_render(self@[i]),
        ));
        lines
    }

    /// Push a fully-constructed issue.
    pub fn push(&mut self, issue: OptionIssue)
        ensures
            final(self)@ == old(self)@.push(issue@),
            final(self)@ == old(self)@ + call_issues(ValidatorCall::Push(issue@)),
    {
        let ghost before = self@;
        self.issues.push(issue);
        assert(self@ =~= before.push(issue@));
    }

    /// Push `Required` if `value` is `None`.
    pub fn check_set<T>(&mut self, id: &str, value: &Option<T>)
        requires
            spec_is_snake_case(id@),
        ensures
            final(self)@ == (if value is None {
                old(self)@.push(single_key(id@, OptionIssueKind::Required, seq![]))
            } else {
                old(self)@
            }),
            final(self)@ == old(self)@ + call_issues(ValidatorCall::CheckSet(id@, value is Some)),
    {
        if value.is_none() {
            self.push(OptionIssue::required(id));
        }
    }

    /// Push `UrlInvalid` if the URL does not start with `http://` or `https://`,
    /// or ends with `/`. A single issue carries one or both reasons.
    pub fn check_url(&mut self, id: &str, url: &str)
        requires
            spec_is_snake_case(id@),
        ensures
            final(self)@ == (if url_reasons(url@).len() == 0 {
                old(self)@
            } else {
                old(self)@.push(url_invalid_view(id@, url@, url_reasons(url@)))
            }),
            final(self)@ == old(self)@ + call_issues(ValidatorCall::CheckUrl(id@, url@)),
    {
        let mut reasons: Vec<&str> = Vec::new();
        if !starts_with(url, "http://") && !starts_with(url, "https://") {
            reasons.push("must start with http:// or https://");
        }
        if ends_with_char(url, '/') {
            reasons.push("must not end with a trailing slash");
        }
        let ghost expected = url_reasons(url@);
        assert(Seq::new(reasons@.len(), |i: int| reasons@[i]@) =~= expected);
        if reasons.len() > 0 {
            self.push(OptionIssue::url_invalid(id, url, reasons.as_slice()));
        }
    }

    /// Push `DirectoryNotFound` unless `is_dir`, the file system's answer to
    /// whether `path` is a directory.
    pub fn check_dir_found(&mut self, id: &str, path: &str, is_dir: bool)
        requires
            spec_is_snake_case(id@),
        ensures
            final(self)@ == (if is_dir {
                old(self)@
            } else {
                old(self)@.push(
                    single_key(id@, OptionIssueKind::DirectoryNotFound, seq![("path"@, path@)]),
                )
            }),
            final(self)@ == old(self)@ + call_issues(ValidatorCall::CheckDir(id@, path@, is_dir)),
    {
        if !is_dir {
            self.push(OptionIssue::directory_not_found(id, path));
        }
    }

    /// Push `RequiredNonEmpty` if the slice is empty.
    pub fn check_non_empty<T>(&mut self, id: &str, value: &[T])
        requires
            spec_is_snake_case(id@),
        ensures
            final(self)@ == (if value@.len() == 0 {
                old(self)@.push(single_key(id@, OptionIssueKind::RequiredNonEmpty, seq![]))
            } else {
                old(self)@
            }),
            final(self)@ == old(self)@ + call_issues(ValidatorCall::CheckNonEmpty(id@, value@.len() == 0)),
    {
        if value.len() == 0 {
            self.push(OptionIssue::required_non_empty(id));
        }
    }

    /// Push `DependencyMissing` if `present` is true and `requires_present` is false.
    pub fn check_dependent(&mut self, id: &str, present: bool, requires_id: &str, requires_present: bool)
        requires
            spec_is_snake_case(id@),
            spec_is_snake_case(requires_id@),
        ensures
            final(self)@ == (if present && !requires_present {
                old(self)@.push(
                    IssueView {
                        keys: seq![id@, requires_id@],
                        kind: OptionIssueKind::DependencyMissing,
                        additional: seq![],
                    },
                )
            } else {
                old(self)@
            }),
            final(self)@ == old(self)@ + call_issues(
                ValidatorCall::CheckDependent(id@, present, requires_id@, requires_present),
            ),
    {
        if present && !requires_present {
            self.push(OptionIssue::dependency_missing(id, requires_id));
        }
    }
}

} // verus!
