//! When a run stops: a bound on its duration and a bound on its requests.

use vstd::prelude::*;

verus! {

/// Nanoseconds in a second.
pub const NANOS_PER_SEC: u64 = 1_000_000_000;

/// How a run proceeds.
#[derive(Clone, Copy, Debug, PartialEq, Eq)]
pub enum RunMode {
    /// One request, shown in full.
    SingleShot,
    /// Requests one after another until a bound is reached.
    Benchmark,
}

/// The bounds of a run.
#[derive(Clone, Copy, Debug, PartialEq, Eq)]
pub struct TerminationPolicy {
    /// Seconds the run may last; 0 asks for exactly one request.
    pub time_bound: u64,
    /// Requests the run may make; 0 sets no such bound.
    pub count_bound: u64,
}

impl TerminationPolicy {
    /// The policy asks for exactly one request.
    pub open spec fn is_single_shot(&self) -> bool {
        self.time_bound == 0
    }

    /// Another request may begin once `completed` requests are done and
    /// `elapsed` nanoseconds have passed. With a time bound of 0 that is the
    /// case for the first request only, whatever the count bound.
    pub open spec fn permits(&self, elapsed: u64, completed: nat) -> bool {
        if self.time_bound == 0 {
            completed == 0
        } else {
            &&& elapsed < self.time_bound * NANOS_PER_SEC
            &&& (self.count_bound == 0 || completed < self.count_bound)
        }
    }

    /// The largest number of requests that a run under this policy can make.
    pub open spec fn request_limit(&self) -> nat {
        if self.time_bound == 0 {
            1
        } else if self.count_bound == 0 {
            u64::MAX as nat
        } else {
            self.count_bound as nat
        }
    }

    /// A policy with the given bounds.
    pub fn new(time_bound: u64, count_bound: u64) -> (policy: TerminationPolicy)
        ensures
            policy.time_bound == time_bound,
            policy.count_bound == count_bound,
    {
        TerminationPolicy { time_bound, count_bound }
    }

    /// The mode of the run: a single request where the time bound is 0.
    pub fn mode(&self) -> (mode: RunMode)
        ensures
            mode is SingleShot <==> self.is_single_shot(),
    {
        if self.time_bound == 0 {
            RunMode::SingleShot
        } else {
            RunMode::Benchmark
        }
    }

    /// Whether another request may begin.
    pub fn should_continue(&self, elapsed: u64, completed: u64) -> (go_on: bool)
        ensures
            go_on == self.permits(elapsed, completed as nat),
    {
        if self.time_bound == 0 {
            completed == 0
        } else {
            assert(self.time_bound * NANOS_PER_SEC <= u64::MAX * NANOS_PER_SEC) by (nonlinear_arith)
                requires
                    self.time_bound <= u64::MAX,
                    NANOS_PER_SEC >= 0,
            ;
            let limit: u128 = self.time_bound as u128 * NANOS_PER_SEC as u128;
            (elapsed as u128) < limit && (self.count_bound == 0 || completed < self.count_bound)
        }
    }
}

/// A policy never permits more requests than its limit.
pub proof fn lemma_permits_below_limit(policy: TerminationPolicy, elapsed: u64, completed: nat)
    requires
        policy.permits(elapsed, completed),
        completed < u64::MAX,
    ensures
        completed < policy.request_limit(),
{
}

/// With a time bound of 0 exactly the first request is permitted, whatever
/// the count bound and the time that has passed.
pub proof fn lemma_single_shot_permits_one(
    policy: TerminationPolicy,
    elapsed: u64,
    completed: nat,
)
    requires
        policy.time_bound == 0,
    ensures
        policy.permits(elapsed, completed) <==> completed == 0,
{
}

/// With both bounds set, no request is permitted from the moment either is
/// reached, and one is permitted before.
pub proof fn lemma_halts_at_first_bound(policy: TerminationPolicy, elapsed: u64, completed: nat)
    requires
        policy.time_bound > 0,
        policy.count_bound > 0,
    ensures
        !policy.permits(elapsed, completed) <==> (elapsed >= policy.time_bound * NANOS_PER_SEC
            || completed >= policy.count_bound),
{
}

} // verus!
