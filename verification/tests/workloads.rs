//! Exact-value checks for the workload generators and the bracket delta.

use gas_tracking_backend::meter::{gas_from_bracket, MeterSample};
use gas_tracking_backend::tracker::GasTracker;
use gas_tracking_backend::workload::{complex_workload, simple_workload};

fn sample(cost: u64, mem: u64) -> MeterSample {
    MeterSample { cost_counter: cost, memory_bytes: mem }
}

fn reference_simple(ts: u64) -> u64 {
    let mut r = 0u64;
    for _ in 0..1000 {
        r = r.wrapping_add(ts);
    }
    r
}

fn reference_complex(ts: u64) -> u64 {
    let mut arr = vec![0u64; 100];
    let mut sum = 0u64;
    for i in 0..100 {
        arr[i] = i as u64;
        sum = sum.wrapping_add(arr[i]);
    }
    for i in 0..100 {
        arr[i] = arr[i].wrapping_mul(sum);
        arr[i] = arr[i].wrapping_div(i as u64 + 1);
        arr[i] = arr[i].wrapping_add(ts);
    }
    for i in 0..100 {
        for j in 0..100 {
            sum = sum.wrapping_add(arr[i].wrapping_mul(j as u64));
        }
    }
    sum
}

fn reference_storage(ts: u64) -> Vec<u64> {
    let mut arr = vec![0u64; 100];
    for i in 0..100 {
        arr[i] = (i as u64).wrapping_mul(2);
    }
    for i in 0..100 {
        arr[i] = arr[i].wrapping_mul(3);
        arr[i] = arr[i].wrapping_div(i as u64 + 1);
        arr[i] = arr[i].wrapping_add(ts);
    }
    for i in 0..100 {
        for j in 0..10 {
            arr[i] = arr[i].wrapping_add(j as u64);
        }
    }
    arr
}

#[test]
fn simple_workload_small_timestamp() {
    assert_eq!(simple_workload(5), 5000);
    assert_eq!(simple_workload(0), 0);
    assert_eq!(simple_workload(1), 1000);
}

#[test]
fn simple_workload_wraps_at_word_size() {
    assert_eq!(simple_workload(u64::MAX), u64::MAX.wrapping_mul(1000));
    assert_eq!(simple_workload(u64::MAX), reference_simple(u64::MAX));
    let near = u64::MAX / 2;
    assert_eq!(simple_workload(near), reference_simple(near));
}

#[test]
fn complex_workload_matches_reference() {
    for ts in [0u64, 1, 123_456_789, u64::MAX, u64::MAX / 3] {
        assert_eq!(complex_workload(ts), reference_complex(ts));
    }
}

#[test]
fn storage_workload_matches_reference() {
    for ts in [0u64, 7, u64::MAX] {
        let mut tracker = GasTracker::new();
        tracker.run_storage_workload(ts);
        let slots = tracker.storage_snapshot();
        assert_eq!(slots, reference_storage(ts));
    }
}

#[test]
fn storage_workload_exact_slots_at_time_zero() {
    let mut tracker = GasTracker::new();
    tracker.run_storage_workload(0);
    let slots = tracker.storage_snapshot();
    assert_eq!(slots.len(), 100);
    assert_eq!(slots[0], 45);
    assert_eq!(slots[1], 48);
    assert_eq!(slots[2], 49);
    assert_eq!(slots[3], 49);
    assert_eq!(slots[99], 50);
}

#[test]
fn bracket_delta_is_exact() {
    let g = gas_from_bracket(sample(10, 100), sample(25, 65_636), 42);
    assert_eq!(g.cost_used, 15);
    assert_eq!(g.memory_used, 65_536);
    assert_eq!(g.timestamp, 42);
}

#[test]
fn bracket_delta_wraps_on_shrink() {
    let g = gas_from_bracket(sample(10, 200), sample(5, 100), 7);
    assert_eq!(g.cost_used, u64::MAX - 4);
    assert_eq!(g.memory_used, u64::MAX - 99);
    assert_eq!(g.timestamp, 7);
}
