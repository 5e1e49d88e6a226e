//! The decisions of a run between its requests.
//!
//! The loop owns the statistics of the run. Its caller asks it what to do
//! next, performs the request, and hands back the outcome; requests never
//! overlap. A run that asks for a single request is a loop of one round.

use vstd::prelude::*;

use crate::outcome::RequestOutcome;
use crate::policy::{TerminationPolicy, NANOS_PER_SEC};
use crate::stats::{BenchStats, StatsView};

verus! {

/// Completed attempts between two progress reports.
pub const PROGRESS_INTERVAL: u64 = 100;

/// State of a run.
#[derive(Clone, Copy, Debug, PartialEq, Eq)]
pub enum LoopState {
    Running,
    Stopped,
}

/// What the caller of the loop does next.
#[derive(Clone, Copy, Debug, PartialEq, Eq)]
pub enum Directive {
    /// Perform one request; show the response in full where `diagnostic` is set.
    Execute { diagnostic: bool },
    /// A request is under way: hand in its outcome first.
    Await,
    /// The run is over.
    Halt,
}

/// What became of an outcome handed to the loop.
#[derive(Clone, Copy, Debug, PartialEq, Eq)]
pub enum Receipt {
    /// The outcome was counted; a progress report is due where `progress` is set.
    Counted { progress: bool },
    /// No request was under way: nothing was counted.
    Ignored,
}

/// A run as its contracts see it.
pub struct LoopView {
    pub policy: TerminationPolicy,
    pub stats: StatsView,
    pub state: LoopState,
    /// A request is under way.
    pub in_flight: bool,
}

impl LoopView {
    /// A run under `policy` before its first request.
    pub open spec fn initial(policy: TerminationPolicy) -> LoopView {
        LoopView {
            policy,
            stats: StatsView { latencies: Seq::<u64>::empty(), failed: 0, total_duration: 0 },
            state: LoopState::Running,
            in_flight: false,
        }
    }

    /// Requests begun so far: the completed ones and the one under way.
    pub open spec fn begun(self) -> nat {
        if self.in_flight {
            self.stats.attempted() + 1
        } else {
            self.stats.attempted()
        }
    }

    /// A stopped run has no request under way, and no more requests were
    /// begun than the policy allows.
    pub open spec fn inv(self) -> bool {
        &&& self.state is Stopped ==> !self.in_flight
        &&& self.begun() <= self.policy.request_limit()
    }

    /// The answer to a poll `elapsed` nanoseconds into the run: a stopped
    /// run stays stopped; a request under way is awaited; otherwise one
    /// more request begins where the policy permits it and the counter of
    /// attempts has room for it, and the run halts where not.
    pub open spec fn decision(self, elapsed: u64) -> Directive {
        if self.state is Stopped {
            Directive::Halt
        } else if self.in_flight {
            Directive::Await
        } else if self.policy.permits(elapsed, self.stats.attempted()) && self.stats.attempted()
            < u64::MAX {
            Directive::Execute { diagnostic: self.policy.is_single_shot() }
        } else {
            Directive::Halt
        }
    }

    /// The run after a poll `elapsed` nanoseconds into it. A run that halts
    /// now lasted `elapsed` nanoseconds.
    pub open spec fn polled(self, elapsed: u64) -> LoopView {
        match self.decision(elapsed) {
            Directive::Execute { .. } => LoopView { in_flight: true, ..self },
            Directive::Await => self,
            Directive::Halt => if self.state is Stopped {
                self
            } else {
                LoopView {
                    state: LoopState::Stopped,
                    stats: self.stats.with_duration(elapsed),
                    ..self
                }
            },
        }
    }

    /// The run after an outcome was handed in: it is counted where a
    /// request was under way, whatever it is, and ignored where none was.
    pub open spec fn recorded(self, outcome: RequestOutcome) -> LoopView {
        if self.in_flight {
            LoopView { stats: self.stats.with_outcome(outcome), in_flight: false, ..self }
        } else {
            self
        }
    }

    /// The receipt for an outcome handed in: a progress report is due
    /// whenever the number of counted attempts reaches a multiple of
    /// `PROGRESS_INTERVAL`.
    pub open spec fn receipt(self) -> Receipt {
        if self.in_flight {
            Receipt::Counted {
                progress: (self.stats.attempted() + 1) % (PROGRESS_INTERVAL as nat) == 0,
            }
        } else {
            Receipt::Ignored
        }
    }

    /// The run ends in failure: it asked for a single request and that
    /// request failed. The failures of a benchmark never do this.
    pub open spec fn ended_in_failure(self) -> bool {
        self.policy.is_single_shot() && self.stats.failed > 0
    }
}

/// A run: its policy, its statistics, and whether a request is under way.
pub struct BenchmarkLoop {
    policy: TerminationPolicy,
    stats: BenchStats,
    state: LoopState,
    in_flight: bool,
}

impl View for BenchmarkLoop {
    type V = LoopView;

    closed spec fn view(&self) -> LoopView {
        LoopView {
            policy: self.policy,
            stats: self.stats@,
            state: self.state,
            in_flight: self.in_flight,
        }
    }
}

impl BenchmarkLoop {
    /// The statistics of the run.
    pub closed spec fn stats(&self) -> BenchStats {
        self.stats
    }

    /// The statistics are well formed and are those of the view, and the
    /// view is that of a run.
    pub open spec fn wf(&self) -> bool {
        &&& self.stats().wf()
        &&& self.stats()@ == self@.stats
        &&& self@.inv()
    }

    /// A run under `policy` that has made no request yet.
    pub fn new(policy: TerminationPolicy) -> (bench: BenchmarkLoop)
        ensures
            bench.wf(),
            bench@ == LoopView::initial(policy),
    {
        BenchmarkLoop {
            policy,
            stats: BenchStats::new(),
            state: LoopState::Running,
            in_flight: false,
        }
    }

    /// Decides, `elapsed` nanoseconds into the run, what happens next.
    pub fn poll(&mut self, elapsed: u64) -> (directive: Directive)
        requires
            old(self).wf(),
        ensures
            final(self).wf(),
            directive == old(self)@.decision(elapsed),
            final(self)@ == old(self)@.polled(elapsed),
    {
        match self.state {
            LoopState::Stopped => Directive::Halt,
            LoopState::Running => {
                if self.in_flight {
                    Directive::Await
                } else {
                    let completed = self.stats.total_requests();
                    if self.stats.has_room() && self.policy.should_continue(elapsed, completed) {
                        self.in_flight = true;
                        Directive::Execute { diagnostic: self.policy.time_bound == 0 }
                    } else {
                        self.stats.set_total_duration(elapsed);
                        self.state = LoopState::Stopped;
                        Directive::Halt
                    }
                }
            },
        }
    }

    /// Takes the outcome of the request under way and counts it.
    pub fn record(&mut self, outcome: &RequestOutcome) -> (receipt: Receipt)
        requires
            old(self).wf(),
        ensures
            final(self).wf(),
            receipt == old(self)@.receipt(),
            final(self)@ == old(self)@.recorded(*outcome),
    {
        if self.in_flight {
            self.stats.record(outcome);
            self.in_flight = false;
            Receipt::Counted { progress: self.stats.total_requests() % PROGRESS_INTERVAL == 0 }
        } else {
            Receipt::Ignored
        }
    }

    /// The state of the run.
    pub fn state(&self) -> (state: LoopState)
        ensures
            state == self@.state,
    {
        self.state
    }

    /// The statistics gathered so far.
    pub fn statistics(&self) -> (stats: &BenchStats)
        ensures
            *stats == self.stats(),
    {
        &self.stats
    }

    /// Whether the run ends in failure.
    pub fn ended_in_failure(&self) -> (failure: bool)
        requires
            self.wf(),
        ensures
            failure == self@.ended_in_failure(),
    {
        self.policy.time_bound == 0 && self.stats.failed_requests() > 0
    }
}

/// A run before its first request is a run.
pub proof fn lemma_initial_inv(policy: TerminationPolicy)
    ensures
        LoopView::initial(policy).inv(),
{
}

/// A poll keeps a run a run, and changes nothing of what it has counted.
pub proof fn lemma_poll_keeps_inv(run: LoopView, elapsed: u64)
    requires
        run.inv(),
    ensures
        run.polled(elapsed).inv(),
        run.polled(elapsed).stats.latencies == run.stats.latencies,
        run.polled(elapsed).stats.failed == run.stats.failed,
        run.polled(elapsed).policy == run.policy,
{
}

/// An outcome keeps a run a run. It never stops the run, whether it is a
/// success or a failure.
pub proof fn lemma_record_keeps_inv(run: LoopView, outcome: RequestOutcome)
    requires
        run.inv(),
    ensures
        run.recorded(outcome).inv(),
        run.recorded(outcome).state == run.state,
        run.recorded(outcome).policy == run.policy,
{
}

/// In every state of a run the number of attempted requests is the number
/// of successful ones plus the number of failed ones, and an outcome adds
/// one to exactly one of the two.
pub proof fn lemma_outcome_counted_once(run: LoopView, outcome: RequestOutcome)
    requires
        run.in_flight,
    ensures
        run.recorded(outcome).stats.attempted() == run.stats.attempted() + 1,
        outcome is Success ==> run.recorded(outcome).stats.latencies.len()
            == run.stats.latencies.len() + 1 && run.recorded(outcome).stats.failed
            == run.stats.failed,
        outcome is Failure ==> run.recorded(outcome).stats.latencies.len()
            == run.stats.latencies.len() && run.recorded(outcome).stats.failed == run.stats.failed
            + 1,
{
}

/// A run never makes more requests than its policy allows: one where the
/// time bound is 0, and otherwise the count bound where it is set.
pub proof fn lemma_requests_within_limit(run: LoopView)
    requires
        run.inv(),
    ensures
        run.stats.attempted() <= run.policy.request_limit(),
        run.policy.time_bound == 0 ==> run.stats.attempted() <= 1,
        run.policy.time_bound > 0 && run.policy.count_bound > 0 ==> run.stats.attempted()
            <= run.policy.count_bound,
{
}

/// A single-shot run begins its one request at the first poll and no other
/// afterwards, whatever the count bound and the time that has passed.
pub proof fn lemma_single_shot_runs_once(run: LoopView, elapsed: u64)
    requires
        run.inv(),
        run.policy.time_bound == 0,
    ensures
        run.decision(elapsed) is Execute <==> run.state is Running && run.begun() == 0,
        run.decision(elapsed) is Execute ==> run.decision(elapsed) == (Directive::Execute {
            diagnostic: true,
        }),
{
}

/// A run with a time bound of 0 makes exactly one request, whatever its
/// count bound, the outcome of the request and the times of the polls: the
/// first poll lets the request begin, and the poll after its outcome halts.
pub proof fn lemma_single_shot_exactly_one(
    policy: TerminationPolicy,
    first_poll: u64,
    outcome: RequestOutcome,
    second_poll: u64,
)
    requires
        policy.time_bound == 0,
    ensures
        LoopView::initial(policy).decision(first_poll) == (Directive::Execute { diagnostic: true }),
        LoopView::initial(policy).polled(first_poll).recorded(outcome).decision(second_poll)
            == Directive::Halt,
        LoopView::initial(policy).polled(first_poll).recorded(outcome).polled(
            second_poll,
        ).stats.attempted() == 1,
{
}

/// With both bounds set and no request under way, a running loop halts
/// exactly when the time bound or the count bound has been reached, and
/// lets a request begin otherwise.
pub proof fn lemma_halts_at_first_bound_reached(run: LoopView, elapsed: u64)
    requires
        run.inv(),
        run.state is Running,
        !run.in_flight,
        run.policy.time_bound > 0,
        run.policy.count_bound > 0,
    ensures
        run.decision(elapsed) is Halt <==> elapsed >= run.policy.time_bound * NANOS_PER_SEC
            || run.stats.attempted() >= run.policy.count_bound,
        !(run.decision(elapsed) is Halt) ==> run.decision(elapsed) == (Directive::Execute {
            diagnostic: false,
        }),
{
}

/// A run that has halted stays halted: it answers every poll with `Halt`,
/// ignores every outcome, and keeps its statistics and its duration.
pub proof fn lemma_stopped_is_final(run: LoopView, elapsed: u64, outcome: RequestOutcome)
    requires
        run.inv(),
        run.state is Stopped,
    ensures
        run.decision(elapsed) is Halt,
        run.polled(elapsed) == run,
        run.recorded(outcome) == run,
{
}

} // verus!
