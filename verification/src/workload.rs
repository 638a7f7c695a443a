//! The three deterministic workload generators. They compute nothing of
//! business value: they exist to consume a predictable amount of resources
//! between two meter readings. Each is nevertheless pinned down exactly, so
//! that a caller knows precisely which arithmetic was performed.

use vstd::prelude::*;
use vstd::arithmetic::div_mod::{lemma_add_mod_noop, lemma_mod_bound, lemma_mod_multiples_vanish};
use vstd::arithmetic::div_mod::lemma_small_mod;
use vstd::wrapping::u64_specs;

verus! {

/// How many wrapping additions the simple workload performs.
pub const SIMPLE_ITERATIONS: usize = 1000;

/// One more than `u64::MAX`: the modulus of 64-bit wrapping arithmetic.
pub const WORD_MODULUS: u128 = 0x1_0000_0000_0000_0000;

/// The accumulator after `n` wrapping additions of `timestamp` to zero.
pub open spec fn simple_acc(timestamp: u64, n: nat) -> u64
    decreases n,
{
    if n == 0 {
        0u64
    } else {
        u64_specs::wrapping_add(simple_acc(timestamp, (n - 1) as nat), timestamp)
    }
}

/// Adding `timestamp` to zero `n` times with wrapping is multiplication
/// modulo the word size.
pub proof fn lemma_simple_acc_closed_form(timestamp: u64, n: nat)
    ensures
        simple_acc(timestamp, n) == (n * timestamp) % (WORD_MODULUS as int),
    decreases n,
{
    let r = WORD_MODULUS as int;
    if n == 0 {
        lemma_small_mod(0, WORD_MODULUS as nat);
    } else {
        lemma_simple_acc_closed_form(timestamp, (n - 1) as nat);
        let m = (n - 1) * timestamp;
        assert((n - 1) * timestamp + timestamp == n * timestamp) by (nonlinear_arith);
        let prev = simple_acc(timestamp, (n - 1) as nat);
        lemma_mod_bound(m, r);
        lemma_add_mod_noop(m, timestamp as int, r);
        lemma_small_mod(timestamp as nat, WORD_MODULUS as nat);
        if prev + timestamp > u64::MAX {
            lemma_mod_multiples_vanish(1, prev + timestamp - r, r);
            lemma_small_mod((prev + timestamp - r) as nat, WORD_MODULUS as nat);
        } else {
            lemma_small_mod((prev + timestamp) as nat, WORD_MODULUS as nat);
        }
    }
}

/// The simple workload: a fixed 1000-iteration wrapping accumulation of the
/// host time it was given. The accumulator is returned only so that the
/// contract can pin the loop down; the caller discards it.
pub fn simple_workload(timestamp: u64) -> (r: u64)
    ensures
        r == simple_acc(timestamp, SIMPLE_ITERATIONS as nat),
        r == (SIMPLE_ITERATIONS * timestamp) % (WORD_MODULUS as int),
{
    let mut result: u64 = 0;
    let mut k: usize = 0;
    while k < SIMPLE_ITERATIONS
        invariant
            k <= SIMPLE_ITERATIONS,
            result == simple_acc(timestamp, k as nat),
        decreases SIMPLE_ITERATIONS - k,
    {
        result = result.wrapping_add(timestamp);
        k = k + 1;
    }
    proof {
        lemma_simple_acc_closed_form(timestamp, SIMPLE_ITERATIONS as nat);
    }
    result
}

/// Length of the transient buffer of the complex workload, of the persistent
/// buffer of the storage workload, and of each side of the quadratic phase.
pub const BUFFER_LEN: usize = 100;

/// The running sum after the fill phase has visited the first `k` indices:
/// zero plus 0, 1, ..., k - 1, each added with wrapping.
pub open spec fn fill_acc(k: nat) -> u64
    decreases k,
{
    if k == 0 {
        0u64
    } else {
        u64_specs::wrapping_add(fill_acc((k - 1) as nat), (k - 1) as u64)
    }
}

/// The sum the fill phase ends with: 0 + 1 + ... + 99.
pub open spec fn fill_sum() -> u64 {
    fill_acc(BUFFER_LEN as nat)
}

/// The fill phase never wraps: its running sum is the `k`-th triangular
/// number, 4950 at most.
pub proof fn lemma_fill_acc_value(k: nat)
    requires
        k <= 100,
    ensures
        2 * fill_acc(k) == k * (k - 1),
        fill_acc(k) <= 4950,
    decreases k,
{
    if k > 0 {
        lemma_fill_acc_value((k - 1) as nat);
        let prev = fill_acc((k - 1) as nat);
        let step = (k - 1) as u64;
        assert(fill_acc(k) == u64_specs::wrapping_add(prev, step));
        assert(prev + step <= u64::MAX);
        assert(fill_acc(k) == prev + step);
        assert(2 * prev == (k - 1) * (k - 2));
        assert((k - 1) * (k - 2) + 2 * (k - 1) == k * (k - 1)) by (nonlinear_arith);
        assert(k * (k - 1) <= 9900) by (nonlinear_arith)
            requires
                k <= 100,
        ;
        assert(step == k - 1);
        assert(2 * fill_acc(k) == (k - 1) * (k - 2) + 2 * (k - 1));
        assert(2 * fill_acc(k) == k * (k - 1));
    } else {
        assert(fill_acc(0) == 0u64);
        assert(2 * fill_acc(k) == k * (k - 1));
    }
}

/// The buffer cell the transform phase leaves at index `i`: the fill value `i`
/// times the fill sum, divided by `i + 1`, plus the time the phase read. Only
/// the final addition can wrap; the product stays below 500000.
pub open spec fn complex_cell(timestamp: u64, i: int) -> u64 {
    u64_specs::wrapping_add(((i * 4950) / (i + 1)) as u64, timestamp)
}

/// The running sum after the first `j` steps of one row of the quadratic
/// phase: each step adds the row's cell times the column index, wrapping.
pub open spec fn cross_acc_row(cell: u64, s: u64, j: nat) -> u64
    decreases j,
{
    if j == 0 {
        s
    } else {
        u64_specs::wrapping_add(
            cross_acc_row(cell, s, (j - 1) as nat),
            u64_specs::wrapping_mul(cell, (j - 1) as u64),
        )
    }
}

/// The running sum after the first `i` full rows of the quadratic phase,
/// starting from the fill phase's sum.
pub open spec fn cross_acc(timestamp: u64, i: nat) -> u64
    decreases i,
{
    if i == 0 {
        fill_sum()
    } else {
        cross_acc_row(
            complex_cell(timestamp, i - 1),
            cross_acc(timestamp, (i - 1) as nat),
            BUFFER_LEN as nat,
        )
    }
}

/// The complex workload: fills a transient 100-element buffer and sums it,
/// transforms every cell with the host time it was given, then runs a
/// quadratic cross-product accumulation over all index pairs. The final sum is
/// returned only so that the contract can pin the loops down; the caller
/// discards it.
pub fn complex_workload(timestamp: u64) -> (r: u64)
    ensures
        r == cross_acc(timestamp, BUFFER_LEN as nat),
{
    let mut arr: Vec<u64> = vec![0u64; BUFFER_LEN];
    let mut sum: u64 = 0;

    let mut i: usize = 0;
    while i < BUFFER_LEN
        invariant
            i <= BUFFER_LEN,
            arr@.len() == BUFFER_LEN,
            forall|m: int| 0 <= m < i ==> arr@[m] == m as u64,
            sum == fill_acc(i as nat),
        decreases BUFFER_LEN - i,
    {
        arr[i] = i as u64;
        sum = sum.wrapping_add(arr[i]);
        i = i + 1;
    }
    proof {
        lemma_fill_acc_value(BUFFER_LEN as nat);
    }
    assert(sum == 4950);

    let mut i: usize = 0;
    while i < BUFFER_LEN
        invariant
            i <= BUFFER_LEN,
            arr@.len() == BUFFER_LEN,
            sum == 4950,
            forall|m: int| 0 <= m < i ==> arr@[m] == complex_cell(timestamp, m),
            forall|m: int| i <= m < BUFFER_LEN ==> arr@[m] == m as u64,
        decreases BUFFER_LEN - i,
    {
        proof {
            assert(i * 4950 < 0x1_0000_0000_0000_0000) by (nonlinear_arith)
                requires
                    0 <= i < 100,
            ;
            lemma_small_mod((i * 4950) as nat, WORD_MODULUS as nat);
        }
        arr[i] = arr[i].wrapping_mul(sum);
        arr[i] = arr[i] / (i as u64 + 1);
        arr[i] = arr[i].wrapping_add(timestamp);
        i = i + 1;
    }

    let mut i: usize = 0;
    while i < BUFFER_LEN
        invariant
            i <= BUFFER_LEN,
            arr@.len() == BUFFER_LEN,
            forall|m: int| 0 <= m < BUFFER_LEN ==> arr@[m] == complex_cell(timestamp, m),
            sum == cross_acc(timestamp, i as nat),
        decreases BUFFER_LEN - i,
    {
        let mut j: usize = 0;
        while j < BUFFER_LEN
            invariant
                i < BUFFER_LEN,
                j <= BUFFER_LEN,
                arr@.len() == BUFFER_LEN,
                forall|m: int| 0 <= m < BUFFER_LEN ==> arr@[m] == complex_cell(timestamp, m),
                sum == cross_acc_row(
                    complex_cell(timestamp, i as int),
                    cross_acc(timestamp, i as nat),
                    j as nat,
                ),
            decreases BUFFER_LEN - j,
        {
            sum = sum.wrapping_add(arr[i].wrapping_mul(j as u64));
            j = j + 1;
        }
        i = i + 1;
    }
    sum
}

} // verus!
