//! Ledger growth, filtering, grouping, idempotence, and the start hook.

use gas_tracking_backend::meter::MeterSample;
use gas_tracking_backend::tracker::GasTracker;

fn sample(cost: u64, mem: u64) -> MeterSample {
    MeterSample { cost_counter: cost, memory_bytes: mem }
}

fn record_simple(t: &mut GasTracker, ts: u64) {
    t.record_simple_measured(sample(0, 0), sample(1, 0), ts);
}

fn record_complex(t: &mut GasTracker, ts: u64) {
    t.record_complex_measured(sample(0, 0), sample(2, 0), ts);
}

fn record_storage(t: &mut GasTracker, ts: u64) {
    t.run_storage_workload(ts);
    t.record_storage_measured(sample(0, 0), sample(3, 65_536), ts);
}

#[test]
fn every_recording_grows_ledger_by_one() {
    let mut t = GasTracker::new();
    assert_eq!(t.get_all_transactions().len(), 0);
    record_simple(&mut t, 1);
    assert_eq!(t.get_all_transactions().len(), 1);
    record_simple(&mut t, 2);
    assert_eq!(t.get_all_transactions().len(), 2);
    record_complex(&mut t, 3);
    assert_eq!(t.get_all_transactions().len(), 3);
    record_storage(&mut t, 4);
    assert_eq!(t.get_all_transactions().len(), 4);
}

#[test]
fn by_kind_filters_exactly_and_keeps_order() {
    let mut t = GasTracker::new();
    record_simple(&mut t, 1);
    record_complex(&mut t, 2);
    record_simple(&mut t, 3);
    let simple = t.get_transactions_by_kind("simple".to_string());
    assert_eq!(simple.len(), 2);
    assert!(simple.iter().all(|r| r.kind == "simple"));
    assert_eq!(simple[0].gas_info.timestamp, 1);
    assert_eq!(simple[1].gas_info.timestamp, 3);
    let complex = t.get_transactions_by_kind("complex".to_string());
    assert_eq!(complex.len(), 1);
    assert_eq!(complex[0].gas_info.timestamp, 2);
}

#[test]
fn by_kind_unknown_kind_is_empty() {
    let mut t = GasTracker::new();
    record_simple(&mut t, 1);
    record_storage(&mut t, 2);
    assert!(t.get_transactions_by_kind("nonexistent".to_string()).is_empty());
    assert!(t.get_transactions_by_kind("Simple".to_string()).is_empty());
    assert!(t.get_transactions_by_kind("".to_string()).is_empty());
}

#[test]
fn grouped_lengths_match_by_kind() {
    let mut t = GasTracker::new();
    record_simple(&mut t, 1);
    record_complex(&mut t, 2);
    record_simple(&mut t, 3);
    record_storage(&mut t, 4);
    record_storage(&mut t, 5);
    let groups = t.get_gas_statistics();
    assert_eq!(groups.len(), 3);
    for (kind, gas) in &groups {
        let filtered = t.get_transactions_by_kind(kind.clone());
        assert_eq!(gas.len(), filtered.len());
        for (g, r) in gas.iter().zip(filtered.iter()) {
            assert_eq!(g, &r.gas_info);
        }
    }
}

#[test]
fn grouped_has_no_duplicate_keys_and_only_recorded_kinds() {
    let mut t = GasTracker::new();
    record_simple(&mut t, 1);
    record_simple(&mut t, 2);
    let groups = t.get_gas_statistics();
    assert_eq!(groups.len(), 1);
    assert_eq!(groups[0].0, "simple");
    assert_eq!(groups[0].1.len(), 2);
}

#[test]
fn queries_are_idempotent() {
    let mut t = GasTracker::new();
    record_simple(&mut t, 1);
    record_complex(&mut t, 2);
    record_storage(&mut t, 3);

    let all_a = t.get_all_transactions();
    let all_b = t.get_all_transactions();
    assert_eq!(all_a.len(), all_b.len());
    for (x, y) in all_a.iter().zip(all_b.iter()) {
        assert_eq!(x.kind, y.kind);
        assert_eq!(x.gas_info, y.gas_info);
    }

    let by_a = t.get_transactions_by_kind("storage".to_string());
    let by_b = t.get_transactions_by_kind("storage".to_string());
    assert_eq!(by_a.len(), by_b.len());
    for (x, y) in by_a.iter().zip(by_b.iter()) {
        assert_eq!(x.kind, y.kind);
        assert_eq!(x.gas_info, y.gas_info);
    }

    let st_a = t.get_gas_statistics();
    let st_b = t.get_gas_statistics();
    assert_eq!(st_a, st_b);
}

#[test]
fn start_hook_leaves_hundred_zero_slots() {
    let t = GasTracker::new();
    let slots = t.storage_snapshot();
    assert_eq!(slots.len(), 100);
    assert!(slots.iter().all(|s| *s == 0));
}

#[test]
fn reset_zeroes_slots_and_keeps_ledger() {
    let mut t = GasTracker::new();
    record_simple(&mut t, 1);
    t.run_storage_workload(9);
    assert!(t.storage_snapshot().iter().any(|s| *s != 0));
    t.reset_storage();
    let slots = t.storage_snapshot();
    assert_eq!(slots.len(), 100);
    assert!(slots.iter().all(|s| *s == 0));
    assert_eq!(t.get_all_transactions().len(), 1);
}
