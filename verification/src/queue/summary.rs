//! Counting the sources in the queue by indexer and by stage outcome.
use crate::torrent::indexer::str_eq;
use vstd::prelude::*;

verus! {

/// What the summary reads of one queued source: its indexer and, for each
/// stage that ran, whether it succeeded.
#[derive(Clone, Debug)]
pub struct QueueItemStatus {
    /// Indexer of the source.
    pub indexer: String,
    /// Whether verification passed, if it ran.
    pub verify: Option<bool>,
    /// Whether spectrogram generation succeeded, if it ran.
    pub spectrogram: Option<bool>,
    /// Whether transcoding succeeded, if it ran.
    pub transcode: Option<bool>,
    /// Whether uploading succeeded, if it ran.
    pub upload: Option<bool>,
}

/// Counts of the three outcomes of one stage.
#[derive(Clone, Copy, Debug, Default, Eq, PartialEq, Structural)]
pub struct StageCounts {
    /// Sources for which the stage did not run.
    pub none: u64,
    /// Sources for which the stage succeeded.
    pub success: u64,
    /// Sources for which the stage failed.
    pub failure: u64,
}

/// Summary of the queue.
#[derive(Clone, Debug)]
pub struct QueueSummary {
    /// Number of sources.
    pub total: u64,
    /// Number of sources of each indexer, in order of first appearance.
    pub indexer: Vec<(String, u64)>,
    /// Verification outcomes.
    pub verify: StageCounts,
    /// Spectrogram outcomes.
    pub spectrogram: StageCounts,
    /// Transcode outcomes.
    pub transcode: StageCounts,
    /// Upload outcomes.
    pub upload: StageCounts,
}

/// Number of sources for which a stage's outcome is `outcome`.
pub open spec fn count_outcome(outcomes: Seq<Option<bool>>, outcome: Option<bool>) -> nat
    decreases outcomes.len(),
{
    if outcomes.len() == 0 {
        0
    } else {
        count_outcome(outcomes.drop_last(), outcome) + if outcomes.last() == outcome {
            1nat
        } else {
            0nat
        }
    }
}

/// Number of sources of indexer `name`.
pub open spec fn count_indexer(items: Seq<QueueItemStatus>, name: Seq<char>) -> nat
    decreases items.len(),
{
    if items.len() == 0 {
        0
    } else {
        count_indexer(items.drop_last(), name) + if items.last().indexer@ == name {
            1nat
        } else {
            0nat
        }
    }
}

/// Whether `c` counts the three outcomes in `outcomes`.
pub open spec fn counts_match(c: StageCounts, outcomes: Seq<Option<bool>>) -> bool {
    &&& c.none == count_outcome(outcomes, None)
    &&& c.success == count_outcome(outcomes, Some(true))
    &&& c.failure == count_outcome(outcomes, Some(false))
}

/// The outcomes of verification of each source.
pub open spec fn verify_outcomes(items: Seq<QueueItemStatus>) -> Seq<Option<bool>> {
    items.map_values(|it: QueueItemStatus| it.verify)
}

/// The outcomes of spectrogram generation of each source.
pub open spec fn spectrogram_outcomes(items: Seq<QueueItemStatus>) -> Seq<Option<bool>> {
    items.map_values(|it: QueueItemStatus| it.spectrogram)
}

/// The outcomes of transcoding of each source.
pub open spec fn transcode_outcomes(items: Seq<QueueItemStatus>) -> Seq<Option<bool>> {
    items.map_values(|it: QueueItemStatus| it.transcode)
}

/// The outcomes of uploading of each source.
pub open spec fn upload_outcomes(items: Seq<QueueItemStatus>) -> Seq<Option<bool>> {
    items.map_values(|it: QueueItemStatus| it.upload)
}

/// Whether the indexer counts are right for `items`: each indexer of a
/// source appears once, with the number of its sources, and no other.
pub open spec fn indexer_counts_match(entries: Seq<(String, u64)>, items: Seq<QueueItemStatus>) -> bool {
    &&& forall|a: int, b: int|
        0 <= a < b < entries.len() ==> (#[trigger] entries[a]).0@ != (#[trigger] entries[b]).0@
    &&& forall|j: int|
        0 <= j < entries.len() ==> (#[trigger] entries[j]).1 == count_indexer(items, entries[j].0@)
            && count_indexer(items, entries[j].0@) > 0
    &&& forall|k: int|
        0 <= k < items.len() ==> exists|j: int|
            0 <= j < entries.len() && (#[trigger] entries[j]).0@ == (#[trigger] items[k]).indexer@
}

fn count_step(c: StageCounts, outcome: Option<bool>) -> (res: StageCounts)
    requires
        c.none < u64::MAX,
        c.success < u64::MAX,
        c.failure < u64::MAX,
    ensures
        res.none == c.none + if outcome is None {
            1int
        } else {
            0int
        },
        res.success == c.success + if outcome == Some(true) {
            1int
        } else {
            0int
        },
        res.failure == c.failure + if outcome == Some(false) {
            1int
        } else {
            0int
        },
{
    match outcome {
        None => StageCounts { none: c.none + 1, ..c },
        Some(true) => StageCounts { success: c.success + 1, ..c },
        Some(false) => StageCounts { failure: c.failure + 1, ..c },
    }
}

proof fn lemma_count_outcome_bound(outcomes: Seq<Option<bool>>, outcome: Option<bool>)
    ensures
        count_outcome(outcomes, outcome) <= outcomes.len(),
    decreases outcomes.len(),
{
    if outcomes.len() > 0 {
        lemma_count_outcome_bound(outcomes.drop_last(), outcome);
    }
}

proof fn lemma_count_indexer_bound(items: Seq<QueueItemStatus>, name: Seq<char>)
    ensures
        count_indexer(items, name) <= items.len(),
    decreases items.len(),
{
    if items.len() > 0 {
        lemma_count_indexer_bound(items.drop_last(), name);
    }
}

impl QueueSummary {
    /// Summarize the sources of the queue.
    pub fn from_items(items: &Vec<QueueItemStatus>) -> (res: QueueSummary)
        ensures
            res.total == items@.len(),
            indexer_counts_match(res.indexer@, items@),
            counts_match(res.verify, verify_outcomes(items@)),
            counts_match(res.spectrogram, spectrogram_outcomes(items@)),
            counts_match(res.transcode, transcode_outcomes(items@)),
            counts_match(res.upload, upload_outcomes(items@)),
    {
        let zero = StageCounts { none: 0, success: 0, failure: 0 };
        let mut summary = QueueSummary {
            total: 0,
            indexer: Vec::new(),
            verify: zero,
            spectrogram: zero,
            transcode: zero,
            upload: zero,
        };
        let mut i: usize = 0;
        while i < items.len()
            invariant
                i <= items@.len(),
                summary.total == i,
                indexer_counts_match(summary.indexer@, items@.take(i as int)),
                counts_match(summary.verify, verify_outcomes(items@.take(i as int))),
                counts_match(summary.spectrogram, spectrogram_outcomes(items@.take(i as int))),
                counts_match(summary.transcode, transcode_outcomes(items@.take(i as int))),
                counts_match(summary.upload, upload_outcomes(items@.take(i as int))),
            decreases items@.len() - i,
        {
            let ghost prev = items@.take(i as int);
            let ghost next = items@.take(i + 1);
            let item = &items[i];
            proof {
                assert(next.drop_last() =~= prev);
                assert(verify_outcomes(next).drop_last() =~= verify_outcomes(prev));
                assert(spectrogram_outcomes(next).drop_last() =~= spectrogram_outcomes(prev));
                assert(transcode_outcomes(next).drop_last() =~= transcode_outcomes(prev));
                assert(upload_outcomes(next).drop_last() =~= upload_outcomes(prev));
                lemma_count_outcome_bound(verify_outcomes(prev), None);
                lemma_count_outcome_bound(verify_outcomes(prev), Some(true));
                lemma_count_outcome_bound(verify_outcomes(prev), Some(false));
                lemma_count_outcome_bound(spectrogram_outcomes(prev), None);
                lemma_count_outcome_bound(spectrogram_outcomes(prev), Some(true));
                lemma_count_outcome_bound(spectrogram_outcomes(prev), Some(false));
                lemma_count_outcome_bound(transcode_outcomes(prev), None);
                lemma_count_outcome_bound(transcode_outcomes(prev), Some(true));
                lemma_count_outcome_bound(transcode_outcomes(prev), Some(false));
                lemma_count_outcome_bound(upload_outcomes(prev), None);
                lemma_count_outcome_bound(upload_outcomes(prev), Some(true));
                lemma_count_outcome_bound(upload_outcomes(prev), Some(false));
            }
            summary.total = summary.total + 1;
            summary.verify = count_step(summary.verify, item.verify);
            summary.spectrogram = count_step(summary.spectrogram, item.spectrogram);
            summary.transcode = count_step(summary.transcode, item.transcode);
            summary.upload = count_step(summary.upload, item.upload);
            Self::add_indexer(&mut summary.indexer, items, i);
            i = i + 1;
        }
        assert(items@.take(items@.len() as int) =~= items@);
        summary
    }

    fn find_indexer(entries: &Vec<(String, u64)>, name: &str) -> (res: usize)
        ensures
            res <= entries@.len(),
            res < entries@.len() ==> entries@[res as int].0@ == name@,
            forall|k: int| 0 <= k < res ==> entries@[k].0@ != name@,
    {
        let mut j: usize = 0;
        while j < entries.len()
            invariant
                j <= entries@.len(),
                forall|k: int| 0 <= k < j ==> entries@[k].0@ != name@,
            decreases entries@.len() - j,
        {
            if str_eq(entries[j].0.as_str(), name) {
                return j;
            }
            j = j + 1;
        }
        j
    }

    fn add_indexer(entries: &mut Vec<(String, u64)>, items: &Vec<QueueItemStatus>, i: usize)
        requires
            i < items@.len(),
            indexer_counts_match(old(entries)@, items@.take(i as int)),
        ensures
            indexer_counts_match(final(entries)@, items@.take(i + 1)),
    {
        let ghost prev = items@.take(i as int);
        let ghost next = items@.take(i + 1);
        let ghost before = entries@;
        let name = &items[i].indexer;
        proof {
            assert(next.drop_last() =~= prev);
            assert(next.last() == items@[i as int]);
        }
        let j = Self::find_indexer(entries, name.as_str());
        if j < entries.len() {
            proof {
                lemma_count_indexer_bound(prev, name@);
            }
            let key = entries[j].0.clone();
            let count = entries[j].1;
            assert(before[j as int].1 == count_indexer(prev, before[j as int].0@));
            assert(count <= i);
            let n = items.len();
            assert(i < n);
            entries.set(j, (key, count + 1));
            assert forall|k: int| 0 <= k < next.len() implies exists|m: int|
                0 <= m < entries@.len() && (#[trigger] entries@[m]).0@ == (#[trigger] next[k]).indexer@ by {
                if k < i {
                    assert(prev[k] == next[k]);
                    let m = choose|m: int| 0 <= m < before.len() && (#[trigger] before[m]).0@ == prev[k].indexer@;
                    assert(entries@[m].0@ == before[m].0@);
                } else {
                    assert(entries@[j as int].0@ == next[k].indexer@);
                }
            }
        } else {
            proof {
                lemma_count_indexer_zero(prev, name@, before);
            }
            entries.push((name.clone(), 1));
            assert forall|k: int| 0 <= k < next.len() implies exists|m: int|
                0 <= m < entries@.len() && (#[trigger] entries@[m]).0@ == (#[trigger] next[k]).indexer@ by {
                if k < i {
                    assert(prev[k] == next[k]);
                    let m = choose|m: int| 0 <= m < before.len() && (#[trigger] before[m]).0@ == prev[k].indexer@;
                    assert(entries@[m] == before[m]);
                } else {
                    assert(entries@[before.len() as int].0@ == next[k].indexer@);
                }
            }
        }
    }
}

/// An indexer absent from the counted entries has no sources.
proof fn lemma_count_indexer_zero(items: Seq<QueueItemStatus>, name: Seq<char>, entries: Seq<(String, u64)>)
    requires
        forall|k: int|
            0 <= k < items.len() ==> exists|j: int|
                0 <= j < entries.len() && (#[trigger] entries[j]).0@ == (#[trigger] items[k]).indexer@,
        forall|j: int| 0 <= j < entries.len() ==> entries[j].0@ != name,
    ensures
        count_indexer(items, name) == 0,
    decreases items.len(),
{
    if items.len() > 0 {
        let last = items.len() - 1;
        assert(items[last] == items.last());
        let j = choose|j: int| 0 <= j < entries.len() && (#[trigger] entries[j]).0@ == items[last].indexer@;
        assert forall|k: int| 0 <= k < items.drop_last().len() implies exists|j: int|
            0 <= j < entries.len() && (#[trigger] entries[j]).0@ == (#[trigger] items.drop_last()[k]).indexer@ by {
            assert(items.drop_last()[k] == items[k]);
        }
        lemma_count_indexer_zero(items.drop_last(), name, entries);
    }
}

/// Every source is counted under exactly one outcome of each stage: the
/// three counts of a stage add up to the number of sources.
pub proof fn stage_outcomes_partition(outcomes: Seq<Option<bool>>)
    ensures
        count_outcome(outcomes, None) + count_outcome(outcomes, Some(true)) + count_outcome(
            outcomes,
            Some(false),
        ) == outcomes.len(),
    decreases outcomes.len(),
{
    if outcomes.len() > 0 {
        stage_outcomes_partition(outcomes.drop_last());
        let l = outcomes.last();
        if l is Some && l != Some(true) {
            assert(l == Some(false));
        }
    }
}

} // verus!
