//! The general guarantees of the harness, written out and proved: how the
//! ledger grows under recordings, what the kind filter returns, and how the
//! grouping view relates to the filter.

use vstd::prelude::*;
use crate::ledger::{gas_of_kind, has_kind, of_kind};
use crate::records::{GasInfo, TransactionRecord};
use crate::storage::{zero_slots, SLOT_COUNT};
use crate::tracker::recorded;

verus! {

/// Every recording grows the ledger by exactly one record: the old records
/// keep their places, and the new record stands at the end with the kind and
/// measurement that were recorded.
pub proof fn lemma_recording_appends_one(
    old_l: Seq<TransactionRecord>,
    new_l: Seq<TransactionRecord>,
    kind: Seq<char>,
    g: GasInfo,
)
    requires
        recorded(old_l, new_l, kind, g),
    ensures
        new_l.len() == old_l.len() + 1,
        new_l.subrange(0, old_l.len() as int) == old_l,
        has_kind(new_l.last(), kind),
        new_l.last().gas_info == g,
{
    assert(new_l.subrange(0, old_l.len() as int) =~= old_l);
}

/// Whether `new_l` is `old_l` with one recording of some kind and measurement
/// appended.
pub open spec fn some_recording(
    old_l: Seq<TransactionRecord>,
    new_l: Seq<TransactionRecord>,
) -> bool {
    exists|kind: Seq<char>, g: GasInfo| #[trigger] recorded(old_l, new_l, kind, g)
}

/// Across any chain of ledger states linked by single recordings, the final
/// size is the starting size plus the number of recordings: one record per
/// entry-point invocation, so a ledger that started empty holds exactly as
/// many records as invocations happened.
pub proof fn lemma_size_counts_recordings(states: Seq<Seq<TransactionRecord>>)
    requires
        states.len() >= 1,
        forall|i: int|
            0 <= i < states.len() - 1 ==> #[trigger] some_recording(states[i], states[i + 1]),
    ensures
        states.last().len() == states[0].len() + states.len() - 1,
    decreases states.len(),
{
    if states.len() > 1 {
        let prefix = states.drop_last();
        assert forall|i: int| 0 <= i < prefix.len() - 1 implies #[trigger] some_recording(
            prefix[i],
            prefix[i + 1],
        ) by {
            assert(prefix[i] == states[i]);
            assert(prefix[i + 1] == states[i + 1]);
            assert(some_recording(states[i], states[i + 1]));
        }
        lemma_size_counts_recordings(prefix);
        let n = states.len() - 1;
        assert(some_recording(states[n - 1], states[n - 1 + 1]));
        let (kind, g) = choose|kind: Seq<char>, g: GasInfo|
            #[trigger] recorded(states[n - 1], states[n], kind, g);
        lemma_recording_appends_one(states[n - 1], states[n], kind, g);
        assert(prefix.last() == states[n - 1]);
    }
}

/// Every record the kind filter returns carries exactly the kind that was
/// asked for.
pub proof fn lemma_of_kind_matches(l: Seq<TransactionRecord>, kind: Seq<char>)
    ensures
        forall|j: int|
            0 <= j < of_kind(l, kind).len() ==> has_kind(#[trigger] of_kind(l, kind)[j], kind),
{
    assert forall|j: int| 0 <= j < of_kind(l, kind).len() implies has_kind(
        #[trigger] of_kind(l, kind)[j],
        kind,
    ) by {
        l.lemma_filter_pred(|t: TransactionRecord| has_kind(t, kind), j);
    }
}

/// The grouping view and the kind filter agree: for every kind, the grouped
/// measurement sequence is exactly as long as the filtered record sequence.
pub proof fn lemma_group_len_matches_by_kind(l: Seq<TransactionRecord>, kind: Seq<char>)
    ensures
        gas_of_kind(l, kind).len() == of_kind(l, kind).len(),
{
}

/// Two calls of a query with no recording between them read the same ledger
/// and so return the same records: each query's contract pins its result as a
/// function of the ledger alone. Stated here for the kind filter; the full
/// scan and the grouping view are pinned the same way.
pub proof fn lemma_query_results_agree(
    l: Seq<TransactionRecord>,
    kind: Seq<char>,
    r1: Seq<TransactionRecord>,
    r2: Seq<TransactionRecord>,
)
    requires
        r1 == of_kind(l, kind),
        r2 == of_kind(l, kind),
    ensures
        r1 == r2,
{
}

/// The buffer the start hook leaves behind: exactly 100 slots, all zero.
pub proof fn lemma_start_slots_zeroed()
    ensures
        zero_slots().len() == SLOT_COUNT,
        forall|i: int| 0 <= i < SLOT_COUNT ==> zero_slots()[i] == 0u64,
{
}

} // verus!

