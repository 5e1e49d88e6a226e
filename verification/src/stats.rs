//! Running counters and recorded latencies of a benchmark run.
//!
//! All durations are whole nanoseconds held in a `u64`.

use vstd::prelude::*;

use crate::order::{ascending_copy, lemma_ascending_copy, lemma_same_values, sorted_copy};
use crate::outcome::RequestOutcome;

verus! {

/// Sum of all values of `s`, as a mathematical integer.
pub open spec fn sum_of(s: Seq<u64>) -> int
    decreases s.len(),
{
    if s.len() == 0 {
        0
    } else {
        sum_of(s.drop_last()) + s.last()
    }
}

/// Arithmetic mean of `s`, rounded down to a whole number; zero for the empty sequence.
pub open spec fn mean_of(s: Seq<u64>) -> int {
    if s.len() == 0 {
        0
    } else {
        sum_of(s) / (s.len() as int)
    }
}

/// `m` occurs in `s` and no value of `s` is below it.
pub open spec fn is_minimum(s: Seq<u64>, m: u64) -> bool {
    &&& exists|i: int| 0 <= i < s.len() && s[i] == m
    &&& forall|i: int| 0 <= i < s.len() ==> m <= s[i]
}

/// `m` occurs in `s` and no value of `s` is above it.
pub open spec fn is_maximum(s: Seq<u64>, m: u64) -> bool {
    &&& exists|i: int| 0 <= i < s.len() && s[i] == m
    &&& forall|i: int| 0 <= i < s.len() ==> s[i] <= m
}

/// Position, in ascending order, of the nearest-rank percentile `p` among `n`
/// values: `ceil(n * p / 100) - 1`, and 0 where that would be negative.
pub open spec fn rank_index(n: nat, p: nat) -> nat {
    let rank = (n * p + 99) / 100;
    if rank == 0 {
        0
    } else {
        (rank - 1) as nat
    }
}

/// Position, in ascending order, of the nearest-rank percentile
/// `numerator / denominator` among `n` values: what `rank_index` is for a
/// whole percentile.
pub open spec fn rank_index_of_ratio(n: nat, numerator: nat, denominator: nat) -> nat
    recommends
        denominator > 0,
{
    let rank = (n * numerator + 100 * denominator - 1) / (100 * denominator as int);
    if rank <= 0 {
        0
    } else {
        (rank - 1) as nat
    }
}

/// Nearest-rank percentile `numerator / denominator` of `s`; zero for the
/// empty sequence.
pub open spec fn percentile_of_ratio(s: Seq<u64>, numerator: nat, denominator: nat) -> u64
    recommends
        denominator > 0,
{
    if s.len() == 0 {
        0
    } else {
        ascending_copy(s)[rank_index_of_ratio(s.len(), numerator, denominator) as int]
    }
}

/// Nearest-rank percentile `p` of `s`: the value at `rank_index` once `s` is put
/// in ascending order; zero for the empty sequence.
pub open spec fn percentile_of(s: Seq<u64>, p: nat) -> u64 {
    if s.len() == 0 {
        0
    } else {
        ascending_copy(s)[rank_index(s.len(), p) as int]
    }
}

/// What a run has recorded: the latencies of its successful requests in
/// completion order, the number of failed requests, and the duration of the
/// whole run once it is known.
pub struct StatsView {
    pub latencies: Seq<u64>,
    pub failed: nat,
    pub total_duration: u64,
}

impl StatsView {
    /// Number of requests attempted: the successful and the failed ones.
    pub open spec fn attempted(self) -> nat {
        self.latencies.len() + self.failed
    }

    /// The record after one more success with the given latency.
    pub open spec fn with_success(self, latency: u64) -> StatsView {
        StatsView { latencies: self.latencies.push(latency), ..self }
    }

    /// The record after one more failure.
    pub open spec fn with_failure(self) -> StatsView {
        StatsView { failed: self.failed + 1, ..self }
    }

    /// The record after one more outcome.
    pub open spec fn with_outcome(self, outcome: RequestOutcome) -> StatsView {
        match outcome {
            RequestOutcome::Success { latency } => self.with_success(latency),
            RequestOutcome::Failure { .. } => self.with_failure(),
        }
    }

    /// The record once the run has lasted `elapsed` nanoseconds.
    pub open spec fn with_duration(self, elapsed: u64) -> StatsView {
        StatsView { total_duration: elapsed, ..self }
    }
}

/// Latency figures of a run with at least one success.
#[derive(Clone, Copy, Debug, PartialEq, Eq)]
pub struct LatencySummary {
    pub min: u64,
    pub max: u64,
    pub avg: u64,
    pub p50: u64,
    pub p90: u64,
    pub p95: u64,
    pub p99: u64,
}

/// The figures reported at the end of a run.
#[derive(Clone, Copy, Debug, PartialEq, Eq)]
pub struct Summary {
    pub total_duration: u64,
    pub total_requests: u64,
    pub successful_requests: u64,
    pub failed_requests: u64,
    /// Absent when no request succeeded.
    pub latency: Option<LatencySummary>,
}

/// The smallest value of `s`; `None` for the empty sequence.
pub open spec fn least(s: Seq<u64>) -> Option<u64> {
    if s.len() == 0 {
        None
    } else {
        Some(choose|m: u64| is_minimum(s, m))
    }
}

/// The largest value of `s`; `None` for the empty sequence.
pub open spec fn greatest(s: Seq<u64>) -> Option<u64> {
    if s.len() == 0 {
        None
    } else {
        Some(choose|m: u64| is_maximum(s, m))
    }
}

/// The latency figures of `s`; `None` for the empty sequence.
pub open spec fn latency_summary_of(s: Seq<u64>) -> Option<LatencySummary> {
    if s.len() == 0 {
        None
    } else {
        Some(
            LatencySummary {
                min: least(s)->0,
                max: greatest(s)->0,
                avg: mean_of(s) as u64,
                p50: percentile_of(s, 50),
                p90: percentile_of(s, 90),
                p95: percentile_of(s, 95),
                p99: percentile_of(s, 99),
            },
        )
    }
}

/// The figures of a run that has recorded `view`.
pub open spec fn summary_of(view: StatsView) -> Summary {
    Summary {
        total_duration: view.total_duration,
        total_requests: view.attempted() as u64,
        successful_requests: view.latencies.len() as u64,
        failed_requests: view.failed as u64,
        latency: latency_summary_of(view.latencies),
    }
}

/// Accumulator of per-request outcomes.
pub struct BenchStats {
    total_requests: u64,
    successful_requests: u64,
    failed_requests: u64,
    total_duration: u64,
    min_latency: u64,
    max_latency: u64,
    latencies: Vec<u64>,
}

impl View for BenchStats {
    type V = StatsView;

    closed spec fn view(&self) -> StatsView {
        StatsView {
            latencies: self.latencies@,
            failed: self.failed_requests as nat,
            total_duration: self.total_duration,
        }
    }
}

impl BenchStats {
    /// The counters agree with the recorded latencies and with each other, and
    /// the extremes are those of the recorded latencies.
    pub closed spec fn wf(&self) -> bool {
        &&& self.total_requests == self.successful_requests + self.failed_requests
        &&& self.successful_requests == self.latencies@.len()
        &&& self.latencies@.len() == 0 ==> self.min_latency == u64::MAX && self.max_latency == 0
        &&& self.latencies@.len() > 0 ==> is_minimum(self.latencies@, self.min_latency)
            && is_maximum(self.latencies@, self.max_latency)
    }

    /// Number of requests attempted so far: the recorded successes and failures.
    pub open spec fn attempted(&self) -> nat {
        self@.attempted()
    }

    /// The counter of attempted requests.
    pub closed spec fn counted_total(&self) -> u64 {
        self.total_requests
    }

    /// The counter of successful requests.
    pub closed spec fn counted_successes(&self) -> u64 {
        self.successful_requests
    }

    /// The counter of failed requests.
    pub closed spec fn counted_failures(&self) -> u64 {
        self.failed_requests
    }

    /// An accumulator with nothing recorded.
    pub fn new() -> (stats: BenchStats)
        ensures
            stats.wf(),
            stats@.latencies == Seq::<u64>::empty(),
            stats@.failed == 0,
            stats@.total_duration == 0,
    {
        BenchStats {
            total_requests: 0,
            successful_requests: 0,
            failed_requests: 0,
            total_duration: 0,
            min_latency: u64::MAX,
            max_latency: 0,
            latencies: Vec::new(),
        }
    }

    /// Whether one more outcome can be counted.
    pub fn has_room(&self) -> (room: bool)
        requires
            self.wf(),
        ensures
            room == (self.attempted() < u64::MAX),
    {
        self.total_requests < u64::MAX
    }

    /// Records a successful request and its latency.
    pub fn add_success(&mut self, latency: u64)
        requires
            old(self).wf(),
            old(self).attempted() < u64::MAX,
        ensures
            final(self).wf(),
            final(self)@ == old(self)@.with_success(latency),
            final(self).counted_total() == final(self).counted_successes()
                + final(self).counted_failures(),
    {
        let ghost before = self.latencies@;
        self.total_requests = self.total_requests + 1;
        self.successful_requests = self.successful_requests + 1;
        self.latencies.push(latency);
        if latency < self.min_latency {
            self.min_latency = latency;
        }
        if latency > self.max_latency {
            self.max_latency = latency;
        }
        proof {
            let after = self.latencies@;
            let last = before.len() as int;
            assert(after[last] == latency);
            assert forall|i: int| 0 <= i < after.len() implies self.min_latency <= after[i]
                && after[i] <= self.max_latency by {
                if i < last {
                    assert(after[i] == before[i]);
                }
            }
            if before.len() == 0 {
                assert(self.min_latency == latency && self.max_latency == latency);
            } else {
                let lo = choose|i: int| 0 <= i < before.len() && before[i] == old(self).min_latency;
                let hi = choose|i: int| 0 <= i < before.len() && before[i] == old(self).max_latency;
                assert(after[lo] == before[lo]);
                assert(after[hi] == before[hi]);
            }
        }
    }

    /// Records a failed request; no latency is kept for it.
    pub fn add_failure(&mut self)
        requires
            old(self).wf(),
            old(self).attempted() < u64::MAX,
        ensures
            final(self).wf(),
            final(self)@ == old(self)@.with_failure(),
            final(self).counted_total() == final(self).counted_successes()
                + final(self).counted_failures(),
    {
        self.total_requests = self.total_requests + 1;
        self.failed_requests = self.failed_requests + 1;
    }

    /// Records `outcome`: a success with its latency, a failure without one.
    pub fn record(&mut self, outcome: &RequestOutcome)
        requires
            old(self).wf(),
            old(self).attempted() < u64::MAX,
        ensures
            final(self).wf(),
            final(self)@ == old(self)@.with_outcome(*outcome),
            final(self).counted_total() == final(self).counted_successes()
                + final(self).counted_failures(),
    {
        match outcome {
            RequestOutcome::Success { latency } => self.add_success(*latency),
            RequestOutcome::Failure { .. } => self.add_failure(),
        }
    }

    /// Sets the duration of the whole run.
    pub fn set_total_duration(&mut self, elapsed: u64)
        requires
            old(self).wf(),
        ensures
            final(self).wf(),
            final(self)@ == old(self)@.with_duration(elapsed),
    {
        self.total_duration = elapsed;
    }

    /// Number of requests attempted: the successful and the failed ones.
    pub fn total_requests(&self) -> (n: u64)
        requires
            self.wf(),
        ensures
            n == self.counted_total(),
            n == self@.latencies.len() + self@.failed,
    {
        self.total_requests
    }

    /// Number of successful requests.
    pub fn successful_requests(&self) -> (n: u64)
        requires
            self.wf(),
        ensures
            n == self.counted_successes(),
            n == self@.latencies.len(),
    {
        self.successful_requests
    }

    /// Number of failed requests.
    pub fn failed_requests(&self) -> (n: u64)
        requires
            self.wf(),
        ensures
            n == self.counted_failures(),
            n == self@.failed,
    {
        self.failed_requests
    }

    /// Duration of the whole run; zero until it has been set.
    pub fn total_duration(&self) -> (elapsed: u64)
        ensures
            elapsed == self@.total_duration,
    {
        self.total_duration
    }

    /// The recorded latencies in completion order.
    pub fn latencies(&self) -> (recorded: &Vec<u64>)
        ensures
            recorded@ == self@.latencies,
    {
        &self.latencies
    }

    /// The smallest recorded latency; `None` while no request has succeeded.
    pub fn min_latency(&self) -> (min: Option<u64>)
        requires
            self.wf(),
        ensures
            min == least(self@.latencies),
            min matches Some(m) ==> is_minimum(self@.latencies, m),
    {
        if self.latencies.len() == 0 {
            None
        } else {
            proof {
                lemma_least(self.latencies@, self.min_latency);
            }
            Some(self.min_latency)
        }
    }

    /// The largest recorded latency; `None` while no request has succeeded.
    pub fn max_latency(&self) -> (max: Option<u64>)
        requires
            self.wf(),
        ensures
            max == greatest(self@.latencies),
            max matches Some(m) ==> is_maximum(self@.latencies, m),
    {
        if self.latencies.len() == 0 {
            None
        } else {
            proof {
                lemma_greatest(self.latencies@, self.max_latency);
            }
            Some(self.max_latency)
        }
    }

    /// Arithmetic mean of the recorded latencies, rounded down to a whole
    /// nanosecond; zero while no request has succeeded.
    pub fn avg_latency(&self) -> (avg: u64)
        ensures
            avg == mean_of(self@.latencies),
    {
        let n = self.latencies.len();
        if n == 0 {
            return 0;
        }
        let total = total_of(&self.latencies);
        proof {
            lemma_sum_bounds(self.latencies@);
            assert(total / (n as u128) <= u64::MAX) by (nonlinear_arith)
                requires
                    total <= n * u64::MAX,
                    n > 0,
            ;
        }
        (total / (n as u128)) as u64
    }

    /// Nearest-rank percentile `p` of the recorded latencies; zero while no
    /// request has succeeded.
    pub fn percentile(&self, p: u8) -> (value: u64)
        requires
            p <= 100,
        ensures
            value == percentile_of(self@.latencies, p as nat),
    {
        if self.latencies.len() == 0 {
            return 0;
        }
        let sorted = sorted_copy(&self.latencies);
        pick_rank(&sorted, p as u32, 1)
    }

    /// Nearest-rank percentile `numerator / denominator` of the recorded
    /// latencies, for percentiles that are no whole numbers; zero while no
    /// request has succeeded.
    pub fn percentile_ratio(&self, numerator: u32, denominator: u32) -> (value: u64)
        requires
            denominator > 0,
            numerator <= 100 * denominator,
        ensures
            value == percentile_of_ratio(self@.latencies, numerator as nat, denominator as nat),
    {
        if self.latencies.len() == 0 {
            return 0;
        }
        let sorted = sorted_copy(&self.latencies);
        pick_rank(&sorted, numerator, denominator)
    }

    /// The figures of the run; the latency figures are left out when no request
    /// has succeeded.
    pub fn summary(&self) -> (summary: Summary)
        requires
            self.wf(),
        ensures
            summary == summary_of(self@),
    {
        let latency = if self.latencies.len() == 0 {
            None
        } else {
            proof {
                lemma_least(self.latencies@, self.min_latency);
                lemma_greatest(self.latencies@, self.max_latency);
            }
            let sorted = sorted_copy(&self.latencies);
            Some(
                LatencySummary {
                    min: self.min_latency,
                    max: self.max_latency,
                    avg: self.avg_latency(),
                    p50: pick_rank(&sorted, 50, 1),
                    p90: pick_rank(&sorted, 90, 1),
                    p95: pick_rank(&sorted, 95, 1),
                    p99: pick_rank(&sorted, 99, 1),
                },
            )
        };
        Summary {
            total_duration: self.total_duration,
            total_requests: self.total_requests,
            successful_requests: self.successful_requests,
            failed_requests: self.failed_requests,
            latency,
        }
    }
}

/// Computes `sum_of(v@)`: the sum of at most `usize::MAX` values of 64 bits
/// fits in 128 bits.
pub fn total_of(v: &Vec<u64>) -> (total: u128)
    ensures
        total == sum_of(v@),
{
    let mut total: u128 = 0;
    let mut i: usize = 0;
    while i < v.len()
        invariant
            i <= v.len(),
            total == sum_of(v@.take(i as int)),
            total <= i * u64::MAX,
        decreases v.len() - i,
    {
        proof {
            assert(v@.take(i + 1).drop_last() == v@.take(i as int));
            assert(i * u64::MAX + u64::MAX == (i + 1) * u64::MAX) by (nonlinear_arith);
            assert((i + 1) * u64::MAX <= u64::MAX * u64::MAX) by (nonlinear_arith)
                requires
                    i + 1 <= u64::MAX,
            ;
        }
        total = total + v[i] as u128;
        i = i + 1;
    }
    proof {
        assert(v@.take(v.len() as int) == v@);
    }
    total
}

/// The value at the nearest-rank position of the percentile
/// `numerator / denominator` in `sorted`.
fn pick_rank(sorted: &Vec<u64>, numerator: u32, denominator: u32) -> (value: u64)
    requires
        sorted@.len() > 0,
        denominator > 0,
        numerator <= 100 * denominator,
    ensures
        value == sorted@[rank_index_of_ratio(
            sorted@.len(),
            numerator as nat,
            denominator as nat,
        ) as int],
{
    let n: usize = sorted.len();
    proof {
        lemma_rank_index_of_ratio_in_range(n as nat, numerator as nat, denominator as nat);
        assert(n * numerator <= usize::MAX * u32::MAX) by (nonlinear_arith)
            requires
                n <= usize::MAX,
                numerator <= u32::MAX,
        ;
    }
    let unit: u128 = 100 * denominator as u128;
    let rank: u128 = (n as u128 * numerator as u128 + unit - 1) / unit;
    let index: usize = if rank == 0 {
        0
    } else {
        (rank - 1) as usize
    };
    sorted[index]
}

/// A sequence has at most one minimum: a minimum of `s` is `least(s)`.
pub proof fn lemma_least(s: Seq<u64>, m: u64)
    requires
        is_minimum(s, m),
    ensures
        least(s) == Some(m),
{
    let chosen = choose|c: u64| is_minimum(s, c);
    assert(is_minimum(s, chosen));
    let i = choose|i: int| 0 <= i < s.len() && s[i] == m;
    let j = choose|j: int| 0 <= j < s.len() && s[j] == chosen;
    assert(chosen <= s[i] && m <= s[j]);
}

/// A sequence has at most one maximum: a maximum of `s` is `greatest(s)`.
pub proof fn lemma_greatest(s: Seq<u64>, m: u64)
    requires
        is_maximum(s, m),
    ensures
        greatest(s) == Some(m),
{
    let chosen = choose|c: u64| is_maximum(s, c);
    assert(is_maximum(s, chosen));
    let i = choose|i: int| 0 <= i < s.len() && s[i] == m;
    let j = choose|j: int| 0 <= j < s.len() && s[j] == chosen;
    assert(s[i] <= chosen && s[j] <= m);
}

/// The sum of a sequence lies between zero and its length times the largest
/// value of the type.
pub proof fn lemma_sum_bounds(s: Seq<u64>)
    ensures
        0 <= sum_of(s) <= s.len() * u64::MAX,
    decreases s.len(),
{
    if s.len() > 0 {
        lemma_sum_bounds(s.drop_last());
        assert((s.len() - 1) * u64::MAX + u64::MAX == s.len() * u64::MAX) by (nonlinear_arith);
    }
}

/// For a percentile of at most 100 the nearest-rank position lies inside a
/// sequence of `n` values.
pub proof fn lemma_rank_index_in_range(n: nat, p: nat)
    requires
        n > 0,
        p <= 100,
    ensures
        rank_index(n, p) < n,
{
    assert(n * p <= n * 100) by (nonlinear_arith)
        requires
            p <= 100,
    ;
}

/// A whole percentile is the ratio of itself to one.
pub proof fn lemma_whole_percentile_is_ratio(s: Seq<u64>, p: nat)
    ensures
        rank_index_of_ratio(s.len(), p, 1) == rank_index(s.len(), p),
        percentile_of_ratio(s, p, 1) == percentile_of(s, p),
{
}

/// For a percentile of at most 100 the nearest-rank position lies inside a
/// sequence of `n` values.
pub proof fn lemma_rank_index_of_ratio_in_range(n: nat, numerator: nat, denominator: nat)
    requires
        n > 0,
        denominator > 0,
        numerator <= 100 * denominator,
    ensures
        (n * numerator + 100 * denominator - 1) / (100 * denominator as int) <= n,
        rank_index_of_ratio(n, numerator, denominator) < n,
{
    let unit = 100 * denominator as int;
    let scaled = n * numerator;
    assert(scaled <= n * unit) by (nonlinear_arith)
        requires
            scaled == n * numerator,
            numerator <= unit,
    ;
    assert((scaled + unit - 1) / unit <= n) by (nonlinear_arith)
        requires
            0 <= scaled <= n * unit,
            unit > 0,
    ;
}

/// The nearest-rank position does not decrease when the percentile grows:
/// `p / d <= q / e` is stated as `p * e <= q * d`.
pub proof fn lemma_rank_index_of_ratio_monotonic(n: nat, p: nat, d: nat, q: nat, e: nat)
    requires
        d > 0,
        e > 0,
        p * e <= q * d,
    ensures
        rank_index_of_ratio(n, p, d) <= rank_index_of_ratio(n, q, e),
{
    let unit_p = 100 * d as int;
    let unit_q = 100 * e as int;
    let scaled_p = n * p as int;
    let scaled_q = n * q as int;
    let rank_p = (scaled_p + unit_p - 1) / unit_p;
    let rank_q = (scaled_q + unit_q - 1) / unit_q;
    assert(scaled_p * unit_q <= scaled_q * unit_p) by (nonlinear_arith)
        requires
            scaled_p == n * p,
            scaled_q == n * q,
            unit_p == 100 * d,
            unit_q == 100 * e,
            p * e <= q * d,
    ;
    assert(rank_q * unit_q >= scaled_q) by (nonlinear_arith)
        requires
            rank_q == (scaled_q + unit_q - 1) / unit_q,
            unit_q > 0,
    ;
    assert(scaled_p <= rank_q * unit_p) by (nonlinear_arith)
        requires
            scaled_p * unit_q <= scaled_q * unit_p,
            rank_q * unit_q >= scaled_q,
            unit_q > 0,
            unit_p > 0,
            scaled_p >= 0,
            rank_q >= 0,
    ;
    assert(rank_p <= rank_q) by (nonlinear_arith)
        requires
            rank_p == (scaled_p + unit_p - 1) / unit_p,
            scaled_p <= rank_q * unit_p,
            unit_p > 0,
    ;
}

/// The percentile of a fixed set of latencies does not decrease when the
/// percentile grows, whole or not: `p / d <= q / e` is stated as
/// `p * e <= q * d`.
pub proof fn lemma_percentile_of_ratio_monotonic(s: Seq<u64>, p: nat, d: nat, q: nat, e: nat)
    requires
        d > 0,
        e > 0,
        p * e <= q * d,
        q <= 100 * e,
    ensures
        percentile_of_ratio(s, p, d) <= percentile_of_ratio(s, q, e),
{
    if s.len() > 0 {
        lemma_ascending_copy(s);
        lemma_rank_index_of_ratio_monotonic(s.len(), p, d, q, e);
        lemma_rank_index_of_ratio_in_range(s.len(), q, e);
    }
}

/// The nearest-rank position does not decrease when the percentile grows.
pub proof fn lemma_rank_index_monotonic(n: nat, p: nat, q: nat)
    requires
        p <= q,
    ensures
        rank_index(n, p) <= rank_index(n, q),
{
    assert(n * p <= n * q) by (nonlinear_arith)
        requires
            p <= q,
    ;
}

/// The percentile of a fixed set of latencies does not decrease when the
/// percentile grows.
pub proof fn lemma_percentile_monotonic(s: Seq<u64>, p: nat, q: nat)
    requires
        p <= q <= 100,
    ensures
        percentile_of(s, p) <= percentile_of(s, q),
{
    if s.len() > 0 {
        lemma_ascending_copy(s);
        lemma_rank_index_monotonic(s.len(), p, q);
        lemma_rank_index_in_range(s.len(), q);
    }
}

/// A percentile of recorded latencies is one of them.
pub proof fn lemma_percentile_is_recorded(s: Seq<u64>, p: nat)
    requires
        s.len() > 0,
        p <= 100,
    ensures
        s.contains(percentile_of(s, p)),
{
    lemma_ascending_copy(s);
    lemma_rank_index_in_range(s.len(), p);
    let sorted = ascending_copy(s);
    let index = rank_index(s.len(), p) as int;
    assert(sorted.contains(sorted[index]));
    lemma_same_values(sorted, s, sorted[index]);
}

/// Every percentile lies between the smallest and the largest recorded
/// latency; percentile 0 is the smallest and percentile 100 the largest.
pub proof fn lemma_percentile_within_extremes(s: Seq<u64>, p: nat)
    requires
        s.len() > 0,
        p <= 100,
    ensures
        least(s)->0 <= percentile_of(s, p) <= greatest(s)->0,
        least(s) == Some(percentile_of(s, 0)),
        greatest(s) == Some(percentile_of(s, 100)),
{
    lemma_ascending_copy(s);
    let sorted = ascending_copy(s);
    let first = sorted[0];
    let last = sorted[sorted.len() - 1];
    assert(rank_index(s.len(), 0) == 0);
    assert(rank_index(s.len(), 100) == s.len() - 1);
    assert(sorted.contains(first));
    assert(sorted.contains(last));
    lemma_same_values(sorted, s, first);
    lemma_same_values(sorted, s, last);
    assert forall|i: int| 0 <= i < s.len() implies first <= s[i] && s[i] <= last by {
        assert(s.contains(s[i]));
        lemma_same_values(s, sorted, s[i]);
        let j = choose|j: int| 0 <= j < sorted.len() && sorted[j] == s[i];
        assert(sorted[0] <= sorted[j] && sorted[j] <= sorted[sorted.len() - 1]);
    }
    let at_first = choose|i: int| 0 <= i < s.len() && s[i] == first;
    let at_last = choose|i: int| 0 <= i < s.len() && s[i] == last;
    assert(is_minimum(s, first));
    assert(is_maximum(s, last));
    lemma_least(s, first);
    lemma_greatest(s, last);
    lemma_percentile_monotonic(s, 0, p);
    lemma_percentile_monotonic(s, p, 100);
}

/// After any sequence of recorded outcomes the number of attempted requests is
/// the number of successful ones plus the number of failed ones.
pub proof fn lemma_counts_add_up(stats: BenchStats)
    requires
        stats.wf(),
    ensures
        stats.counted_total() == stats.counted_successes() + stats.counted_failures(),
        stats.counted_successes() == stats@.latencies.len(),
        stats.counted_failures() == stats@.failed,
{
}

} // verus!
