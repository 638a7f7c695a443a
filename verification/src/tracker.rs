//! The benchmark service: owns the ledger and the persistent buffer, brackets
//! each workload between two meter readings, appends the outcome, and serves
//! the read-only queries.

use vstd::prelude::*;
use crate::ledger::{gas_of_kind, has_kind, kind_grouped, kind_recorded, of_kind, Ledger};
use crate::meter::{
    gas_delta, gas_from_bracket, host_grow_pages, host_time, lemma_page_multiple_sub,
    measure_performance, page_multiple, MeterSample,
};
use crate::records::{complex_kind, simple_kind, storage_kind, GasInfo, TransactionRecord};
use crate::storage::{slots_after_run, zero_slots, StorageState, SLOT_COUNT};
use crate::workload::{complex_workload, simple_workload};

verus! {

/// Whether `new_l` is `old_l` with exactly one record appended, that record
/// carrying the kind `kind` and the measurement `g`.
pub open spec fn recorded(
    old_l: Seq<TransactionRecord>,
    new_l: Seq<TransactionRecord>,
    kind: Seq<char>,
    g: GasInfo,
) -> bool {
    &&& new_l == old_l.push(new_l.last())
    &&& has_kind(new_l.last(), kind)
    &&& new_l.last().gas_info == g
}

/// The measurement-and-recording service. It exclusively owns both pieces of
/// state for its lifetime: every read and write goes through its operations.
pub struct GasTracker {
    ledger: Ledger,
    storage: StorageState,
}

impl GasTracker {
    /// The ledger's records, in insertion order.
    pub closed spec fn ledger_seq(self) -> Seq<TransactionRecord> {
        self.ledger@
    }

    /// The persistent buffer's slots.
    pub closed spec fn slots(self) -> Seq<u64> {
        self.storage@
    }

    /// The slot count never moves from 100.
    pub open spec fn wf(self) -> bool {
        self.slots().len() == SLOT_COUNT
    }

    /// A fresh service: an empty ledger and 100 zero slots.
    pub fn new() -> (t: Self)
        ensures
            t.wf(),
            t.ledger_seq() == Seq::<TransactionRecord>::empty(),
            t.slots() == zero_slots(),
    {
        GasTracker { ledger: Ledger::new(), storage: StorageState::new() }
    }

    /// The process start hook: resets the persistent buffer to 100 zero
    /// slots. The ledger and the host's page count are untouched.
    pub fn reset_storage(&mut self)
        ensures
            final(self).wf(),
            final(self).slots() == zero_slots(),
            final(self).ledger_seq() == old(self).ledger_seq(),
    {
        self.storage.reset();
    }

    /// Appends the outcome of a completed simple-workload bracket: the record
    /// carries kind "simple" and the wrapping deltas of the two samples.
    pub fn record_simple_measured(
        &mut self,
        start: MeterSample,
        end: MeterSample,
        timestamp: u64,
    ) -> (g: GasInfo)
        ensures
            g == gas_delta(start, end, timestamp),
            recorded(old(self).ledger_seq(), final(self).ledger_seq(), simple_kind(), g),
            final(self).slots() == old(self).slots(),
    {
        let g = gas_from_bracket(start, end, timestamp);
        self.ledger.append(TransactionRecord { kind: "simple".to_owned(), gas_info: g });
        g
    }

    /// Appends the outcome of a completed complex-workload bracket: the record
    /// carries kind "complex" and the wrapping deltas of the two samples.
    pub fn record_complex_measured(
        &mut self,
        start: MeterSample,
        end: MeterSample,
        timestamp: u64,
    ) -> (g: GasInfo)
        ensures
            g == gas_delta(start, end, timestamp),
            recorded(old(self).ledger_seq(), final(self).ledger_seq(), complex_kind(), g),
            final(self).slots() == old(self).slots(),
    {
        let g = gas_from_bracket(start, end, timestamp);
        self.ledger.append(TransactionRecord { kind: "complex".to_owned(), gas_info: g });
        g
    }

    /// Appends the outcome of a completed storage-workload bracket: the record
    /// carries kind "storage" and the wrapping deltas of the two samples.
    pub fn record_storage_measured(
        &mut self,
        start: MeterSample,
        end: MeterSample,
        timestamp: u64,
    ) -> (g: GasInfo)
        ensures
            g == gas_delta(start, end, timestamp),
            recorded(old(self).ledger_seq(), final(self).ledger_seq(), storage_kind(), g),
            final(self).slots() == old(self).slots(),
    {
        let g = gas_from_bracket(start, end, timestamp);
        self.ledger.append(TransactionRecord { kind: "storage".to_owned(), gas_info: g });
        g
    }

    /// One run of the storage workload over the owned persistent buffer,
    /// reading the given host time. The ledger is untouched.
    pub fn run_storage_workload(&mut self, timestamp: u64)
        requires
            old(self).wf(),
        ensures
            final(self).wf(),
            final(self).ledger_seq() == old(self).ledger_seq(),
            slots_after_run(final(self).slots(), timestamp),
    {
        self.storage.run_workload(timestamp);
    }

    /// The simple entry point: brackets one simple-workload run between two
    /// meter readings and appends the delta under kind "simple". The record's
    /// timestamp is the host time the workload read. Both readings see a
    /// whole-page footprint, so the recorded memory delta is one too.
    pub fn record_simple_transaction(&mut self) -> (g: GasInfo)
        ensures
            recorded(old(self).ledger_seq(), final(self).ledger_seq(), simple_kind(), g),
            final(self).slots() == old(self).slots(),
            page_multiple(g.memory_used),
    {
        let start = measure_performance();
        let timestamp = host_time();
        simple_workload(timestamp);
        let end = measure_performance();
        let g = self.record_simple_measured(start, end, timestamp);
        proof {
            lemma_page_multiple_sub(end.memory_bytes, start.memory_bytes);
        }
        g
    }

    /// The complex entry point: brackets one complex-workload run between two
    /// meter readings and appends the delta under kind "complex". The record's
    /// timestamp is the host time the transform phase read, not the bracket's
    /// end. Both readings see a whole-page footprint, so the recorded memory
    /// delta is one too.
    pub fn record_complex_transaction(&mut self) -> (g: GasInfo)
        ensures
            recorded(old(self).ledger_seq(), final(self).ledger_seq(), complex_kind(), g),
            final(self).slots() == old(self).slots(),
            page_multiple(g.memory_used),
    {
        let start = measure_performance();
        let timestamp = host_time();
        complex_workload(timestamp);
        let end = measure_performance();
        let g = self.record_complex_measured(start, end, timestamp);
        proof {
            lemma_page_multiple_sub(end.memory_bytes, start.memory_bytes);
        }
        g
    }

    /// The storage entry point: brackets one storage-workload run between two
    /// meter readings, asks the host for exactly one more page of persistent
    /// storage so that the bracket always sees a storage delta, and appends
    /// the delta under kind "storage". Unlike the other two entry points, the
    /// record's timestamp is captured fresh after all phases. A refused page
    /// growth is silently ignored: the record is produced either way. Both
    /// readings see a whole-page footprint, so the recorded memory delta is
    /// one too.
    pub fn record_storage_transaction(&mut self) -> (g: GasInfo)
        requires
            old(self).wf(),
        ensures
            final(self).wf(),
            recorded(old(self).ledger_seq(), final(self).ledger_seq(), storage_kind(), g),
            exists|ts: u64| #[trigger] slots_after_run(final(self).slots(), ts),
            page_multiple(g.memory_used),
    {
        let start = measure_performance();
        let workload_time = host_time();
        self.run_storage_workload(workload_time);
        let _previous_pages: u64 = host_grow_pages(1);
        let end = measure_performance();
        let record_time = host_time();
        let g = self.record_storage_measured(start, end, record_time);
        proof {
            assert(slots_after_run(final(self).slots(), workload_time));
            lemma_page_multiple_sub(end.memory_bytes, start.memory_bytes);
        }
        g
    }

    /// A copy of the persistent buffer's slots as they stand, in order.
    pub fn storage_snapshot(&self) -> (v: Vec<u64>)
        ensures
            v@ == self.slots(),
    {
        self.storage.snapshot()
    }

    /// A full copy of the ledger in insertion order.
    pub fn get_all_transactions(&self) -> (r: Vec<TransactionRecord>)
        ensures
            r@ == self.ledger_seq(),
    {
        self.ledger.all()
    }

    /// The records whose kind equals `kind` exactly, insertion order kept; a
    /// kind never recorded yields an empty vector.
    pub fn get_transactions_by_kind(&self, kind: String) -> (r: Vec<TransactionRecord>)
        ensures
            r@ == of_kind(self.ledger_seq(), kind@),
    {
        self.ledger.by_kind(&kind)
    }

    /// The grouping view: one pair per kind ever recorded, carrying that
    /// kind's measurements in insertion order; no kind appears twice, and
    /// kinds never recorded get no pair.
    pub fn get_gas_statistics(&self) -> (r: Vec<(String, Vec<GasInfo>)>)
        ensures
            forall|p: int|
                0 <= p < r@.len() ==> (#[trigger] r@[p]).1@ == gas_of_kind(
                    self.ledger_seq(),
                    r@[p].0@,
                ),
            forall|p: int, q: int| 0 <= p < q < r@.len() ==> r@[p].0@ != r@[q].0@,
            forall|p: int|
                0 <= p < r@.len() ==> kind_recorded(self.ledger_seq(), (#[trigger] r@[p]).0@),
            forall|k: int|
                0 <= k < self.ledger_seq().len() ==> kind_grouped(
                    r@,
                    (#[trigger] self.ledger_seq()[k]).kind@,
                ),
    {
        self.ledger.grouped()
    }
}

} // verus!
