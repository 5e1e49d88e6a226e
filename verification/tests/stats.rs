use pingora_bench::outcome::{RequestError, RequestOutcome};
use pingora_bench::stats::{total_of, BenchStats, LatencySummary};

const MS: u64 = 1_000_000;

fn recorded(latencies: &[u64]) -> BenchStats {
    let mut stats = BenchStats::new();
    for l in latencies {
        stats.add_success(*l);
    }
    stats
}

#[test]
fn new_stats_are_empty() {
    let stats = BenchStats::new();
    assert_eq!(stats.total_requests(), 0);
    assert_eq!(stats.successful_requests(), 0);
    assert_eq!(stats.failed_requests(), 0);
    assert_eq!(stats.total_duration(), 0);
    assert_eq!(stats.min_latency(), None);
    assert_eq!(stats.max_latency(), None);
    assert_eq!(stats.avg_latency(), 0);
    assert!(stats.latencies().is_empty());
    assert!(stats.has_room());
}

#[test]
fn percentile_of_nothing_is_zero() {
    let stats = BenchStats::new();
    assert_eq!(stats.percentile(0), 0);
    assert_eq!(stats.percentile(50), 0);
    assert_eq!(stats.percentile(100), 0);
}

#[test]
fn percentile_nearest_rank_example() {
    let stats = recorded(&[10 * MS, 20 * MS, 30 * MS, 40 * MS, 50 * MS]);
    assert_eq!(stats.percentile(50), 30 * MS);
    assert_eq!(stats.percentile(90), 50 * MS);
}

#[test]
fn percentile_reporting_ranks() {
    let stats = recorded(&[10 * MS, 20 * MS, 30 * MS, 40 * MS, 50 * MS]);
    assert_eq!(stats.percentile(95), 50 * MS);
    assert_eq!(stats.percentile(99), 50 * MS);
    assert_eq!(stats.percentile(20), 10 * MS);
    assert_eq!(stats.percentile(21), 20 * MS);
    assert_eq!(stats.percentile(40), 20 * MS);
    assert_eq!(stats.percentile(41), 30 * MS);
}

#[test]
fn percentile_zero_is_clamped_to_the_first_rank() {
    let stats = recorded(&[30, 10, 20]);
    assert_eq!(stats.percentile(0), 10);
    assert_eq!(stats.percentile(100), 30);
}

#[test]
fn percentile_orders_the_latencies_first() {
    let stats = recorded(&[50 * MS, 10 * MS, 40 * MS, 20 * MS, 30 * MS]);
    assert_eq!(stats.percentile(50), 30 * MS);
    assert_eq!(stats.percentile(90), 50 * MS);
    assert_eq!(stats.percentile(1), 10 * MS);
    assert_eq!(stats.latencies(), &vec![50 * MS, 10 * MS, 40 * MS, 20 * MS, 30 * MS]);
}

#[test]
fn percentile_of_one_hundred_values() {
    let values: Vec<u64> = (1..=100u64).rev().collect();
    let stats = recorded(&values);
    for p in 1..=100u8 {
        assert_eq!(stats.percentile(p), p as u64);
    }
    assert_eq!(stats.percentile(0), 1);
}

#[test]
fn percentile_is_monotonic_in_p() {
    let stats = recorded(&[7, 3, 9, 3, 1, 12, 5, 5, 8, 2, 11]);
    let mut last = stats.percentile(0);
    for p in 1..=100u8 {
        let value = stats.percentile(p);
        assert!(last <= value);
        last = value;
    }
}

#[test]
fn percentile_with_repeated_values() {
    let stats = recorded(&[5, 5, 5, 5]);
    assert_eq!(stats.percentile(0), 5);
    assert_eq!(stats.percentile(50), 5);
    assert_eq!(stats.percentile(100), 5);
}

#[test]
fn extremes_and_mean_of_recorded_latencies() {
    let stats = recorded(&[40, 10, 30, 20]);
    assert_eq!(stats.min_latency(), Some(10));
    assert_eq!(stats.max_latency(), Some(40));
    assert_eq!(stats.avg_latency(), 25);
}

#[test]
fn mean_is_rounded_down() {
    let stats = recorded(&[1, 2]);
    assert_eq!(stats.avg_latency(), 1);
    let stats = recorded(&[10, 11, 11]);
    assert_eq!(stats.avg_latency(), 10);
}

#[test]
fn mean_of_the_largest_latencies_does_not_overflow() {
    let stats = recorded(&[u64::MAX, u64::MAX, u64::MAX]);
    assert_eq!(stats.avg_latency(), u64::MAX);
    assert_eq!(stats.min_latency(), Some(u64::MAX));
    assert_eq!(stats.max_latency(), Some(u64::MAX));
    assert_eq!(total_of(stats.latencies()), 3 * (u64::MAX as u128));
}

#[test]
fn a_single_latency_is_every_figure() {
    let stats = recorded(&[42]);
    assert_eq!(stats.min_latency(), Some(42));
    assert_eq!(stats.max_latency(), Some(42));
    assert_eq!(stats.avg_latency(), 42);
    assert_eq!(stats.percentile(0), 42);
    assert_eq!(stats.percentile(50), 42);
    assert_eq!(stats.percentile(100), 42);
}

#[test]
fn a_latency_of_zero_is_a_real_minimum() {
    let stats = recorded(&[0]);
    assert_eq!(stats.min_latency(), Some(0));
    assert_eq!(stats.max_latency(), Some(0));
}

#[test]
fn counters_add_up_after_every_outcome() {
    let mut stats = BenchStats::new();
    for i in 0..50u64 {
        if i % 3 == 0 {
            stats.add_failure();
        } else {
            stats.add_success(i);
        }
        assert_eq!(
            stats.total_requests(),
            stats.successful_requests() + stats.failed_requests()
        );
        assert_eq!(stats.total_requests(), i + 1);
        assert_eq!(stats.successful_requests(), stats.latencies().len() as u64);
    }
    assert_eq!(stats.failed_requests(), 17);
    assert_eq!(stats.successful_requests(), 33);
}

#[test]
fn failures_record_no_latency() {
    let mut stats = BenchStats::new();
    stats.add_failure();
    stats.add_failure();
    assert_eq!(stats.total_requests(), 2);
    assert_eq!(stats.failed_requests(), 2);
    assert_eq!(stats.successful_requests(), 0);
    assert!(stats.latencies().is_empty());
    assert_eq!(stats.min_latency(), None);
    assert_eq!(stats.max_latency(), None);
    assert_eq!(stats.avg_latency(), 0);
    assert_eq!(stats.percentile(99), 0);
}

#[test]
fn record_routes_outcomes() {
    let mut stats = BenchStats::new();
    stats.record(&RequestOutcome::Success { latency: 7 });
    stats.record(&RequestOutcome::Failure { cause: RequestError::OutOfOrder });
    stats.record(&RequestOutcome::Success { latency: 3 });
    assert_eq!(stats.total_requests(), 3);
    assert_eq!(stats.successful_requests(), 2);
    assert_eq!(stats.failed_requests(), 1);
    assert_eq!(stats.latencies(), &vec![7, 3]);
}

#[test]
fn latencies_keep_completion_order() {
    let stats = recorded(&[3, 1, 2]);
    assert_eq!(stats.latencies(), &vec![3, 1, 2]);
}

#[test]
fn total_duration_is_set_once_known() {
    let mut stats = recorded(&[1, 2, 3]);
    stats.set_total_duration(5_000_000_000);
    assert_eq!(stats.total_duration(), 5_000_000_000);
    assert_eq!(stats.total_requests(), 3);
    assert_eq!(stats.latencies(), &vec![1, 2, 3]);
}

#[test]
fn summary_without_success_has_no_latency_figures() {
    let mut stats = BenchStats::new();
    stats.add_failure();
    stats.add_failure();
    stats.add_failure();
    stats.set_total_duration(1_000_000_000);
    let summary = stats.summary();
    assert_eq!(summary.total_duration, 1_000_000_000);
    assert_eq!(summary.total_requests, 3);
    assert_eq!(summary.successful_requests, 0);
    assert_eq!(summary.failed_requests, 3);
    assert_eq!(summary.latency, None);
}

#[test]
fn summary_with_success_has_all_figures() {
    let mut stats = recorded(&[50 * MS, 10 * MS, 40 * MS, 20 * MS, 30 * MS]);
    stats.add_failure();
    stats.set_total_duration(2_000_000_000);
    let summary = stats.summary();
    assert_eq!(summary.total_duration, 2_000_000_000);
    assert_eq!(summary.total_requests, 6);
    assert_eq!(summary.successful_requests, 5);
    assert_eq!(summary.failed_requests, 1);
    assert_eq!(
        summary.latency,
        Some(LatencySummary {
            min: 10 * MS,
            max: 50 * MS,
            avg: 30 * MS,
            p50: 30 * MS,
            p90: 50 * MS,
            p95: 50 * MS,
            p99: 50 * MS,
        })
    );
}

#[test]
fn summary_throughput_counts_failures_too() {
    let mut stats = recorded(&[1, 2, 3]);
    stats.add_failure();
    stats.set_total_duration(2_000_000_000);
    // 4 requests in 2 s: 2.00 per second.
    assert_eq!(stats.summary().throughput(), Some(200));
}

#[test]
fn summary_throughput_is_rounded_to_hundredths() {
    let mut stats = recorded(&[1]);
    stats.set_total_duration(3_000_000_000);
    // 1 request in 3 s: 0.333... per second.
    assert_eq!(stats.summary().throughput(), Some(33));
    let mut stats = recorded(&[1, 1]);
    stats.set_total_duration(3_000_000_000);
    // 2 requests in 3 s: 0.666... per second.
    assert_eq!(stats.summary().throughput(), Some(67));
}

#[test]
fn summary_throughput_of_no_time_is_absent() {
    let stats = recorded(&[1]);
    assert_eq!(stats.summary().throughput(), None);
}

#[test]
fn total_of_sums_all_values() {
    assert_eq!(total_of(&vec![]), 0);
    assert_eq!(total_of(&vec![1, 2, 3, 4]), 10);
}

#[test]
fn percentile_that_is_no_whole_number() {
    let values: Vec<u64> = (1..=1000u64).collect();
    let stats = recorded(&values);
    // 99.9 %: rank ceil(999.0) = 999.
    assert_eq!(stats.percentile_ratio(999, 10), 999);
    // 99.95 %: rank ceil(999.5) = 1000.
    assert_eq!(stats.percentile_ratio(9995, 100), 1000);
    // A third of a percent: rank ceil(3.33..) = 4.
    assert_eq!(stats.percentile_ratio(1, 3), 4);
    // 12.5 %: rank ceil(125.0) = 125.
    assert_eq!(stats.percentile_ratio(25, 2), 125);
    assert_eq!(stats.percentile_ratio(0, 7), 1);
    assert_eq!(stats.percentile_ratio(700, 7), 1000);
}

#[test]
fn percentile_ratio_agrees_with_whole_percentiles() {
    let stats = recorded(&[7, 3, 9, 3, 1, 12, 5, 5, 8, 2, 11]);
    for p in 0..=100u8 {
        assert_eq!(stats.percentile_ratio(p as u32, 1), stats.percentile(p));
        assert_eq!(stats.percentile_ratio(p as u32 * 10, 10), stats.percentile(p));
    }
    assert_eq!(BenchStats::new().percentile_ratio(999, 10), 0);
}

#[test]
fn percentile_ratio_is_monotonic() {
    let stats = recorded(&[7, 3, 9, 3, 1, 12, 5, 5, 8, 2, 11]);
    let mut last = stats.percentile_ratio(0, 8);
    for eighths in 1..=800u32 {
        let value = stats.percentile_ratio(eighths, 8);
        assert!(last <= value);
        last = value;
    }
    assert_eq!(last, 12);
}

#[test]
fn percentile_lies_between_the_extremes() {
    let stats = recorded(&[7, 3, 9, 3, 1, 12, 5, 5, 8, 2, 11]);
    let min = stats.min_latency().unwrap();
    let max = stats.max_latency().unwrap();
    assert_eq!(stats.percentile(0), min);
    assert_eq!(stats.percentile(100), max);
    for p in 0..=100u8 {
        let value = stats.percentile(p);
        assert!(min <= value && value <= max);
        assert!(stats.latencies().contains(&value));
    }
}
