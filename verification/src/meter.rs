//! The resource meter: reads the host's execution-cost counter and its
//! persistent-storage footprint, and turns a pair of readings taken around a
//! workload into the measurement that the ledger stores.

use vstd::prelude::*;
use vstd::arithmetic::div_mod::{
    lemma_add_mod_noop, lemma_mod_mod, lemma_mod_multiples_basic, lemma_sub_mod_noop,
};
use vstd::wrapping::u64_specs;
use crate::records::GasInfo;

verus! {

/// Bytes in one page of the host's persistent storage.
pub const PAGE_SIZE_BYTES: u64 = 65536;

/// One reading of the host's two resource signals: the execution-cost counter
/// and the persistent-storage footprint in bytes.
#[derive(Clone, Copy, PartialEq, Eq, Structural, Debug)]
pub struct MeterSample {
    pub cost_counter: u64,
    pub memory_bytes: u64,
}

/// Relies on ic_cdk::api::performance_counter: the host's monotonic count of
/// execution units spent in the current message. Available only inside a
/// canister; nothing is known of the value it reports.
#[verifier::external_body]
pub(crate) fn host_cost_counter() -> u64 {
    ic_cdk::api::performance_counter(0u32)
}

/// Relies on ic_cdk::api::stable_size: the current number of pages of host
/// persistent storage. Available only inside a canister; nothing is known of
/// the value it reports.
#[verifier::external_body]
pub(crate) fn host_page_count() -> u64 {
    ic_cdk::api::stable_size()
}

/// Relies on ic_cdk::api::time: the host clock in nanoseconds. Available only
/// inside a canister; nothing is known of the value it reports.
#[verifier::external_body]
pub(crate) fn host_time() -> u64 {
    ic_cdk::api::time()
}

/// Relies on ic_cdk::api::stable_grow: asks the host for `by_pages` more pages
/// of persistent storage and reports the previous page count, or `u64::MAX`
/// when the host refuses to grow. Available only inside a canister.
#[verifier::external_body]
pub(crate) fn host_grow_pages(by_pages: u64) -> u64 {
    ic_cdk::api::stable_grow(by_pages)
}

/// Whether `b` is a whole number of 65536-byte pages.
pub open spec fn page_multiple(b: u64) -> bool {
    b % PAGE_SIZE_BYTES == 0
}

/// Reads both host signals once: the cost counter as it stands, and the
/// storage footprint in bytes, which is the page count times the page size
/// (wrapping, should the host ever report an enormous page count). The host
/// values themselves are unknowable, but whatever the host reports, the
/// footprint is a whole number of pages: the word size is itself a multiple
/// of the page size, so even a wrapped product keeps the alignment.
pub(crate) fn measure_performance() -> (s: MeterSample)
    ensures
        page_multiple(s.memory_bytes),
{
    let cost_counter = host_cost_counter();
    let pages = host_page_count();
    let memory_bytes = pages.wrapping_mul(PAGE_SIZE_BYTES);
    proof {
        let ps = PAGE_SIZE_BYTES as int;
        let word = 0x1_0000_0000_0000_0000 as int;
        assert(ps * 0x1_0000_0000_0000 == word);
        lemma_mod_mod(pages as int * ps, ps, 0x1_0000_0000_0000);
        lemma_mod_multiples_basic(pages as int, ps);
        assert(memory_bytes == (pages as int * ps) % word);
    }
    MeterSample { cost_counter, memory_bytes }
}

/// The wrapping difference of two whole-page footprints is itself a whole
/// number of pages: the word size is a multiple of the page size, so the
/// wrap-around preserves the alignment.
pub proof fn lemma_page_multiple_sub(a: u64, b: u64)
    requires
        page_multiple(a),
        page_multiple(b),
    ensures
        page_multiple(u64_specs::wrapping_sub(a, b)),
{
    let ps = PAGE_SIZE_BYTES as int;
    let word = 0x1_0000_0000_0000_0000 as int;
    lemma_sub_mod_noop(a as int, b as int, ps);
    assert((a - b) % ps == 0);
    if a - b < 0 {
        lemma_add_mod_noop(a - b, word, ps);
        assert(word % ps == 0);
        assert((a - b + word) % ps == 0);
    }
}

/// The measurement a bracket `[start, end]` yields: wrapping differences of
/// the two readings, so a counter reset or a shrinking footprint wraps around
/// to a large value instead of failing.
pub open spec fn gas_delta(start: MeterSample, end: MeterSample, timestamp: u64) -> GasInfo {
    GasInfo {
        cost_used: u64_specs::wrapping_sub(end.cost_counter, start.cost_counter),
        memory_used: u64_specs::wrapping_sub(end.memory_bytes, start.memory_bytes),
        timestamp,
    }
}

/// Packages a measurement bracket into the record the ledger stores.
pub fn gas_from_bracket(start: MeterSample, end: MeterSample, timestamp: u64) -> (g: GasInfo)
    ensures
        g == gas_delta(start, end, timestamp),
{
    GasInfo {
        cost_used: end.cost_counter.wrapping_sub(start.cost_counter),
        memory_used: end.memory_bytes.wrapping_sub(start.memory_bytes),
        timestamp,
    }
}

} // verus!
