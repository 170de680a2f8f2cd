use decode_bench::throughput::{elapsed_nanos, throughput, KILO_PER_SECOND, NANOS_PER_SECOND};

#[test]
fn throughput_elapsed_nanos_joins_seconds_and_nanoseconds() {
    assert_eq!(elapsed_nanos(0, 0), Some(0));
    assert_eq!(elapsed_nanos(2, 5), Some(2_000_000_005));
    assert_eq!(elapsed_nanos(1, 999_999_999), Some(1_999_999_999));
    assert_eq!(NANOS_PER_SECOND, 1_000_000_000);
}

#[test]
fn throughput_elapsed_nanos_reports_an_overflow() {
    assert_eq!(elapsed_nanos(u64::MAX, 0), None);
    assert_eq!(elapsed_nanos(18_446_744_073, 709_551_615), Some(u64::MAX));
    assert_eq!(elapsed_nanos(18_446_744_073, 709_551_616), None);
}

#[test]
fn throughput_is_total_times_a_million_by_nanoseconds() {
    assert_eq!(KILO_PER_SECOND, 1_000_000);
    assert_eq!(throughput(942, 1000), Some(942_000));
    assert_eq!(throughput(942 * 40_000, 200_000_000), Some(188_400));
    assert_eq!(throughput(1, 3), Some(333_333));
    assert_eq!(throughput(0, 1), Some(0));
    assert_eq!(throughput(1, 1_000_001), Some(0));
}

#[test]
fn throughput_needs_elapsed_time() {
    assert_eq!(throughput(942, 0), None);
    assert_eq!(throughput(0, 0), None);
}

#[test]
fn throughput_of_large_totals_is_exact() {
    assert_eq!(throughput(u64::MAX, 1_000_000), Some(u64::MAX));
    assert_eq!(throughput(u64::MAX, 2_000_000), Some(u64::MAX / 2));
    assert_eq!(throughput(u64::MAX, 999_999), None);
    assert_eq!(throughput(u64::MAX, 1), None);
}

#[test]
fn throughput_does_not_depend_on_the_number_of_passes() {
    let cases: [(u64, u64); 4] = [(942, 12_345), (4_002_940, 9_876_543), (1, 7), (1024, 1)];
    for (bytes, nanos) in cases {
        let single = throughput(bytes, nanos);
        for k in [1u64, 2, 10, 2000, 100_000] {
            assert_eq!(throughput(k * bytes, k * nanos), single);
        }
    }
}
