//! A micro-benchmark harness for a stateful host: three synthetic workloads of
//! increasing cost are run inside a measurement bracket, and the observed
//! resource deltas are appended to an in-process ledger that can be read back
//! whole, filtered by workload kind, or grouped by kind.

pub mod laws;
pub mod ledger;
pub mod meter;
pub mod records;
pub mod storage;
pub mod tracker;
pub mod workload;
