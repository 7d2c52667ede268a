//! Indexer (tracker) identities as written in torrent `source` fields.
use crate::text::{chars_of, owned, spec_lowercase, to_lowercase};
use vstd::prelude::*;

verus! {

/// A gazelle based indexer, identified case-insensitively by its short name.
#[derive(Clone, Debug)]
pub enum Indexer {
    /// RED.
    Red,
    /// PTH, the former name of RED.
    Pth,
    /// OPS.
    Ops,
    /// Any other indexer, by its lower-cased name.
    Other(String),
}

/// Model of an [`Indexer`].
pub enum IndexerView {
    Red,
    Pth,
    Ops,
    Other(Seq<char>),
}

impl View for Indexer {
    type V = IndexerView;

    open spec fn view(&self) -> IndexerView {
        match self {
            Indexer::Red => IndexerView::Red,
            Indexer::Pth => IndexerView::Pth,
            Indexer::Ops => IndexerView::Ops,
            Indexer::Other(name) => IndexerView::Other(name@),
        }
    }
}

/// The indexer named by an already lower-cased name.
pub open spec fn indexer_of_lower(lower: Seq<char>) -> IndexerView {
    if lower == "red"@ {
        IndexerView::Red
    } else if lower == "pth"@ {
        IndexerView::Pth
    } else if lower == "ops"@ {
        IndexerView::Ops
    } else {
        IndexerView::Other(lower)
    }
}

/// The indexer named by `name`, compared case-insensitively.
pub open spec fn spec_indexer_from(name: Seq<char>) -> IndexerView {
    indexer_of_lower(spec_lowercase(name))
}

/// The lower-case short name of an indexer.
pub open spec fn spec_indexer_name(i: IndexerView) -> Seq<char> {
    match i {
        IndexerView::Red => "red"@,
        IndexerView::Pth => "pth"@,
        IndexerView::Ops => "ops"@,
        IndexerView::Other(name) => name,
    }
}

/// Whether torrents sourced from `other` count as sourced from `this`:
/// the same indexer, or `this` is RED and `other` is its former name PTH.
pub open spec fn spec_match_with_alts(this: IndexerView, other: IndexerView) -> bool {
    ||| this == other
    ||| (this is Red && other is Pth)
}

/// Whether two strings hold the same characters.
pub fn str_eq(a: &str, b: &str) -> (res: bool)
    ensures
        res == (a@ == b@),
{
    let ac = chars_of(a);
    let bc = chars_of(b);
    if ac.len() != bc.len() {
        return false;
    }
    let mut i: usize = 0;
    while i < ac.len()
        invariant
            ac@ == a@,
            bc@ == b@,
            ac.len() == bc.len(),
            i <= ac.len(),
            forall|j: int| 0 <= j < i ==> ac@[j] == bc@[j],
        decreases ac.len() - i,
    {
        if ac[i] != bc[i] {
            return false;
        }
        i = i + 1;
    }
    assert(a@ =~= b@);
    true
}

impl Indexer {
    /// The indexer named by `name`, compared case-insensitively.
    pub fn from(name: &str) -> (res: Self)
        ensures
            res@ == spec_indexer_from(name@),
    {
        let lower = to_lowercase(name);
        if str_eq(lower.as_str(), "red") {
            Indexer::Red
        } else if str_eq(lower.as_str(), "pth") {
            Indexer::Pth
        } else if str_eq(lower.as_str(), "ops") {
            Indexer::Ops
        } else {
            Indexer::Other(lower)
        }
    }

    /// The lower-case short name of the indexer.
    pub fn name(&self) -> (res: String)
        ensures
            res@ == spec_indexer_name(self@),
    {
        match self {
            Indexer::Red => owned("red"),
            Indexer::Pth => owned("pth"),
            Indexer::Ops => owned("ops"),
            Indexer::Other(name) => name.clone(),
        }
    }

    /// Whether torrents sourced from `other` count as sourced from `self`.
    pub fn match_with_alts(&self, other: &Indexer) -> (res: bool)
        ensures
            res == spec_match_with_alts(self@, other@),
    {
        match (self, other) {
            (Indexer::Red, Indexer::Red) => true,
            (Indexer::Red, Indexer::Pth) => true,
            (Indexer::Pth, Indexer::Pth) => true,
            (Indexer::Ops, Indexer::Ops) => true,
            (Indexer::Other(a), Indexer::Other(b)) => str_eq(a.as_str(), b.as_str()),
            _ => false,
        }
    }
}


/// Names that differ only in case name the same indexer.
pub proof fn indexer_names_are_case_insensitive(a: Seq<char>, b: Seq<char>)
    requires
        spec_lowercase(a) == spec_lowercase(b),
    ensures
        spec_indexer_from(a) == spec_indexer_from(b),
{
}

/// Every indexer matches itself, and the only match between different
/// indexers is RED accepting its former name PTH.
pub proof fn matches_are_self_or_red_accepting_pth(this: IndexerView, other: IndexerView)
    ensures
        spec_match_with_alts(this, this),
        spec_match_with_alts(this, other) && this != other ==> this is Red && other is Pth,
{
}

} // verus!
