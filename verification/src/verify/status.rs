//! Outcome of verifying a source.
use crate::verify::issue::SourceIssue;
use vstd::prelude::*;

verus! {

/// A point in time: whole seconds since the Unix epoch.
#[derive(Clone, Copy, Debug, Eq, PartialEq, Structural)]
pub struct TimeStamp {
    /// Seconds since 1970-01-01T00:00:00Z.
    pub seconds: u64,
}

impl TimeStamp {
    /// The current time.
    ///
    /// Trusted: reads the system clock with `std::time::SystemTime::now`; the
    /// time depends on when it is called, so nothing is claimed of it.
    #[verifier::external_body]
    pub(crate) fn now() -> (res: TimeStamp) {
        let seconds = std::time::SystemTime::now()
            .duration_since(std::time::UNIX_EPOCH)
            .map(|d| d.as_secs())
            .unwrap_or(0);
        TimeStamp { seconds }
    }
}

/// Result of verifying a source.
#[derive(Clone, Debug)]
pub struct VerifyStatus {
    /// Whether the source passed verification.
    pub verified: bool,
    /// Issues found during verification.
    pub issues: Option<Vec<SourceIssue>>,
    /// Time the verification completed.
    pub completed: TimeStamp,
}

impl VerifyStatus {
    /// A status for a source that passed verification.
    pub fn verified() -> (res: Self)
        ensures
            res.verified,
            res.issues is None,
    {
        Self { verified: true, issues: None, completed: TimeStamp::now() }
    }

    /// A status from the issues found: verified when there are none,
    /// otherwise not verified and carrying the issues.
    pub fn from_issues(issues: Vec<SourceIssue>) -> (res: Self)
        ensures
            issues@.len() == 0 ==> res.verified && res.issues is None,
            issues@.len() > 0 ==> !res.verified && res.issues == Some(issues),
    {
        if issues.len() == 0 {
            Self::verified()
        } else {
            Self { verified: false, issues: Some(issues), completed: TimeStamp::now() }
        }
    }

    /// A status for a source that failed verification with one issue.
    pub fn from_issue(issue: SourceIssue) -> (res: Self)
        ensures
            !res.verified,
            res.issues matches Some(v) && v@ == seq![issue],
    {
        let mut issues: Vec<SourceIssue> = Vec::new();
        issues.push(issue);
        Self { verified: false, issues: Some(issues), completed: TimeStamp::now() }
    }
}

} // verus!
