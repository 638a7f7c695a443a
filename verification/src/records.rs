//! The value types of the ledger: one resource measurement, and one ledger
//! entry pairing a measurement with the kind of workload that produced it.

use vstd::prelude::*;

verus! {

/// A single resource measurement: the change of the execution-cost counter and
/// of the persistent-storage footprint across one workload run, together with
/// the host time the workload read while it ran.
#[derive(Clone, Copy, PartialEq, Eq, Structural, Debug)]
pub struct GasInfo {
    pub cost_used: u64,
    pub memory_used: u64,
    pub timestamp: u64,
}

/// One ledger entry: which kind of workload ran, and what it cost.
#[derive(Debug)]
pub struct TransactionRecord {
    pub kind: String,
    pub gas_info: GasInfo,
}

impl Clone for TransactionRecord {
    fn clone(&self) -> (res: Self)
        ensures
            res == *self,
    {
        TransactionRecord { kind: self.kind.clone(), gas_info: self.gas_info }
    }
}

/// The discriminator written by the simple (pure arithmetic) workload.
pub open spec fn simple_kind() -> Seq<char> {
    "simple"@
}

/// The discriminator written by the complex (array manipulation) workload.
pub open spec fn complex_kind() -> Seq<char> {
    "complex"@
}

/// The discriminator written by the storage (persistent buffer) workload.
pub open spec fn storage_kind() -> Seq<char> {
    "storage"@
}

} // verus!
