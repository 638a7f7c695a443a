//! The persistent buffer the storage workload mutates: a fixed run of 100
//! slots that the process start hook resets to zero, plus the workload that
//! rewrites every slot to make storage access the dominant cost.

use vstd::prelude::*;
use vstd::wrapping::u64_specs;

verus! {

/// How many slots the persistent buffer always has.
pub const SLOT_COUNT: usize = 100;

/// The fixed-size persistent buffer. Its logical slot count never changes;
/// only the storage workload rewrites the slots, and only the start hook
/// zeroes them.
pub struct StorageState {
    slots: Vec<u64>,
}

impl View for StorageState {
    type V = Seq<u64>;

    closed spec fn view(&self) -> Seq<u64> {
        self.slots@
    }
}

/// A run of 100 zero slots: the buffer as the start hook leaves it.
pub open spec fn zero_slots() -> Seq<u64> {
    Seq::new(SLOT_COUNT as nat, |i: int| 0u64)
}

/// The slot one workload run leaves at index `i` after its first two passes:
/// write `2 * i`, triple it, divide by `i + 1`, then add the host time the
/// pass read, wrapping.
pub open spec fn transformed_slot(timestamp: u64, i: int) -> u64 {
    u64_specs::wrapping_add(((6 * i) / (i + 1)) as u64, timestamp)
}

/// The value left after the third pass added `0, 1, ..., j - 1` to `base` one
/// wrapping addition at a time.
pub open spec fn dripped(base: u64, j: nat) -> u64
    decreases j,
{
    if j == 0 {
        base
    } else {
        u64_specs::wrapping_add(dripped(base, (j - 1) as nat), (j - 1) as u64)
    }
}

/// The slot one full workload run leaves at index `i`: the transformed slot
/// plus the third pass's total of 45, wrapping.
pub open spec fn storage_slot(timestamp: u64, i: int) -> u64 {
    u64_specs::wrapping_add(transformed_slot(timestamp, i), 45)
}

/// Whether `s` reads exactly as one storage workload run that read host time
/// `timestamp` leaves the buffer.
pub open spec fn slots_after_run(s: Seq<u64>, timestamp: u64) -> bool {
    forall|i: int| 0 <= i < SLOT_COUNT ==> #[trigger] s[i] == storage_slot(timestamp, i)
}

/// Ten single wrapping additions of 0 through 9 amount to one wrapping
/// addition of 45.
pub proof fn lemma_dripped_ten(base: u64)
    ensures
        dripped(base, 10) == u64_specs::wrapping_add(base, 45),
{
    reveal_with_fuel(dripped, 11);
}

impl StorageState {
    /// A fresh buffer: 100 slots, all zero.
    pub fn new() -> (s: Self)
        ensures
            s@ == zero_slots(),
    {
        let slots: Vec<u64> = vec![0u64; SLOT_COUNT];
        proof {
            assert(slots@ =~= zero_slots());
        }
        StorageState { slots }
    }

    /// A copy of the slots as they stand, in order.
    pub fn snapshot(&self) -> (v: Vec<u64>)
        ensures
            v@ == self@,
    {
        let mut out: Vec<u64> = Vec::new();
        let mut i: usize = 0;
        while i < self.slots.len()
            invariant
                i <= self.slots@.len(),
                out@ == self.slots@.take(i as int),
            decreases self.slots@.len() - i,
        {
            out.push(self.slots[i]);
            proof {
                assert(self.slots@.take(i + 1) =~= self.slots@.take(i as int).push(
                    self.slots@[i as int],
                ));
            }
            i = i + 1;
        }
        proof {
            assert(self.slots@.take(self.slots@.len() as int) =~= self.slots@);
        }
        out
    }

    /// The start hook's reset: back to 100 zero slots, whatever was there.
    pub fn reset(&mut self)
        ensures
            final(self)@ == zero_slots(),
    {
        self.slots.clear();
        self.slots.resize(SLOT_COUNT, 0u64);
        proof {
            assert(self.slots@ =~= zero_slots());
        }
    }

    /// One storage workload run: write `2 * i` into every slot, transform
    /// every slot with the host time it was given, then add 0 through 9 to
    /// every slot, one wrapping addition at a time.
    pub fn run_workload(&mut self, timestamp: u64)
        requires
            old(self)@.len() == SLOT_COUNT,
        ensures
            final(self)@.len() == SLOT_COUNT,
            slots_after_run(final(self)@, timestamp),
    {
        let mut i: usize = 0;
        while i < SLOT_COUNT
            invariant
                i <= SLOT_COUNT,
                self.slots@.len() == SLOT_COUNT,
                forall|m: int| 0 <= m < i ==> self.slots@[m] == (2 * m) as u64,
            decreases SLOT_COUNT - i,
        {
            self.slots[i] = (i as u64).wrapping_mul(2);
            i = i + 1;
        }

        let mut i: usize = 0;
        while i < SLOT_COUNT
            invariant
                i <= SLOT_COUNT,
                self.slots@.len() == SLOT_COUNT,
                forall|m: int| 0 <= m < i ==> self.slots@[m] == transformed_slot(timestamp, m),
                forall|m: int| i <= m < SLOT_COUNT ==> self.slots@[m] == (2 * m) as u64,
            decreases SLOT_COUNT - i,
        {
            self.slots[i] = self.slots[i].wrapping_mul(3);
            self.slots[i] = self.slots[i] / (i as u64 + 1);
            self.slots[i] = self.slots[i].wrapping_add(timestamp);
            i = i + 1;
        }

        let mut i: usize = 0;
        while i < SLOT_COUNT
            invariant
                i <= SLOT_COUNT,
                self.slots@.len() == SLOT_COUNT,
                forall|m: int| 0 <= m < i ==> self.slots@[m] == storage_slot(timestamp, m),
                forall|m: int| i <= m < SLOT_COUNT ==> self.slots@[m] == transformed_slot(
                    timestamp,
                    m,
                ),
            decreases SLOT_COUNT - i,
        {
            let ghost base = transformed_slot(timestamp, i as int);
            let mut j: usize = 0;
            while j < 10
                invariant
                    i < SLOT_COUNT,
                    j <= 10,
                    self.slots@.len() == SLOT_COUNT,
                    self.slots@[i as int] == dripped(base, j as nat),
                    forall|m: int| 0 <= m < i ==> self.slots@[m] == storage_slot(timestamp, m),
                    forall|m: int|
                        i < m < SLOT_COUNT ==> self.slots@[m] == transformed_slot(timestamp, m),
                decreases 10 - j,
            {
                self.slots[i] = self.slots[i].wrapping_add(j as u64);
                j = j + 1;
            }
            proof {
                lemma_dripped_ten(base);
            }
            i = i + 1;
        }
    }
}

} // verus!
