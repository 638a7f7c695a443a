//! Multi-step scenarios across the whole service.

use gas_tracking_backend::meter::MeterSample;
use gas_tracking_backend::tracker::GasTracker;

fn sample(cost: u64, mem: u64) -> MeterSample {
    MeterSample { cost_counter: cost, memory_bytes: mem }
}

#[test]
fn four_invocations_in_order() {
    let mut t = GasTracker::new();
    t.record_simple_measured(sample(0, 0), sample(10, 0), 11);
    t.record_complex_measured(sample(10, 0), sample(30, 0), 22);
    t.run_storage_workload(33);
    t.record_storage_measured(sample(30, 0), sample(60, 65_536), 34);
    t.record_simple_measured(sample(60, 65_536), sample(70, 65_536), 44);

    let all = t.get_all_transactions();
    assert_eq!(all.len(), 4);
    assert_eq!(all[0].kind, "simple");
    assert_eq!(all[1].kind, "complex");
    assert_eq!(all[2].kind, "storage");
    assert_eq!(all[3].kind, "simple");

    let simple = t.get_transactions_by_kind("simple".to_string());
    assert_eq!(simple.len(), 2);
    assert_eq!(simple[0].gas_info.timestamp, all[0].gas_info.timestamp);
    assert_eq!(simple[1].gas_info.timestamp, all[3].gas_info.timestamp);

    let groups = t.get_gas_statistics();
    assert_eq!(groups.len(), 3);
    for (kind, gas) in &groups {
        match kind.as_str() {
            "simple" => assert_eq!(gas.len(), 2),
            "complex" => assert_eq!(gas.len(), 1),
            "storage" => assert_eq!(gas.len(), 1),
            other => panic!("unexpected kind {}", other),
        }
    }
}

#[test]
fn two_consecutive_storage_recordings() {
    let mut t = GasTracker::new();
    t.run_storage_workload(1);
    t.record_storage_measured(sample(0, 0), sample(5, 65_536), 2);
    t.run_storage_workload(3);
    t.record_storage_measured(sample(5, 65_536), sample(9, 131_072), 4);

    let storage = t.get_transactions_by_kind("storage".to_string());
    assert_eq!(storage.len(), 2);
    assert_eq!(t.get_all_transactions().len(), 2);
    assert_eq!(storage[0].gas_info.memory_used, 65_536);
    assert_eq!(storage[1].gas_info.memory_used, 65_536);
}

#[test]
fn recorded_deltas_use_wrapping_subtraction() {
    let mut t = GasTracker::new();
    let g = t.record_simple_measured(sample(u64::MAX, 10), sample(4, 3), 99);
    assert_eq!(g.cost_used, 5);
    assert_eq!(g.memory_used, u64::MAX - 6);
    assert_eq!(g.timestamp, 99);
    let all = t.get_all_transactions();
    assert_eq!(all[0].gas_info, g);
}
