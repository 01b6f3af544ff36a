use memclean::memory::{measure, MemorySnapshot, ProbeFailure, THRESHOLD_PERCENT};

fn snapshot(total: u64, available: u64) -> MemorySnapshot {
    MemorySnapshot { total_physical_bytes: total, available_physical_bytes: available }
}

#[test]
fn used_fraction_is_used_over_total() {
    let s = snapshot(16_000, 4_000);
    assert_eq!(s.used_bytes(), 12_000);
    assert_eq!(s.used_fraction(), (12_000, 16_000));
    assert_eq!(s.used_per_mille(), 750);
}

#[test]
fn used_fraction_bounds_at_the_extremes() {
    let empty = snapshot(8, 8);
    assert_eq!(empty.used_fraction(), (0, 8));
    assert_eq!(empty.used_per_mille(), 0);
    let full = snapshot(8, 0);
    assert_eq!(full.used_fraction(), (8, 8));
    assert_eq!(full.used_per_mille(), 1000);
    let huge = snapshot(u64::MAX, 0);
    assert_eq!(huge.used_per_mille(), 1000);
    assert!(huge.meets_threshold());
}

#[test]
fn used_per_mille_rounds_down() {
    assert_eq!(snapshot(3, 2).used_per_mille(), 333);
    assert_eq!(snapshot(3, 1).used_per_mille(), 666);
}

#[test]
fn zero_total_is_a_probe_failure() {
    assert_eq!(measure(Ok((0, 0))), Err(ProbeFailure::ZeroTotal));
    assert_eq!(measure(Ok((0, 17))), Err(ProbeFailure::ZeroTotal));
}

#[test]
fn rejected_query_keeps_its_code() {
    assert_eq!(measure(Err(87)), Err(ProbeFailure::QueryRejected { code: 87 }));
}

#[test]
fn more_available_than_total_is_a_probe_failure() {
    assert_eq!(measure(Ok((100, 101))), Err(ProbeFailure::AvailableExceedsTotal));
}

#[test]
fn measure_keeps_the_reported_values() {
    assert_eq!(measure(Ok((100, 40))), Ok(snapshot(100, 40)));
}

#[test]
fn exactly_half_used_triggers() {
    assert_eq!(THRESHOLD_PERCENT, 50);
    assert!(snapshot(10_000, 5_000).meets_threshold());
    assert!(snapshot(2, 1).meets_threshold());
}

#[test]
fn just_below_half_used_does_not_trigger() {
    assert!(!snapshot(10_000, 5_001).meets_threshold());
    assert!(!snapshot(3, 2).meets_threshold());
    assert!(snapshot(10_000, 4_999).meets_threshold());
}
