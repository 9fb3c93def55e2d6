//! The poll scheduler as a mathematical value: the lifecycle of a worker,
//! its options and its pool. Each thing that can happen to a worker is a
//! function from this value to the next.

use crate::config::WorkerConfig;
use crate::error::Error;
use crate::job::ActivationRequest;
use crate::job::Cadence;
use crate::job::Job;
use crate::job::JobOutcome;
use crate::poller::request_for;
use crate::pool_state::PoolState;
use crate::pool_state::lemma_finish_wf;
use crate::pool_state::lemma_settle_wf;
use crate::pool_state::lemma_submit_wf;
use crate::protocol::Effects;
use crate::protocol::Event;
use crate::protocol::Lifecycle;
use crate::protocol::PollSchedule;
use crate::reporter::reports;
use vstd::prelude::*;

verus! {

/// The sequence of the job, if there is one.
pub open spec fn one_or_none(job: Option<Job>) -> Seq<Job> {
    match job {
        Some(job) => seq![job],
        None => Seq::empty(),
    }
}

/// The scheduler as a mathematical value.
pub struct SchedulerState {
    pub lifecycle: Lifecycle,
    pub cadence: Cadence,
    pub config: WorkerConfig,
    pub pool: PoolState,
}

impl SchedulerState {
    /// The scheduler of a worker that has just started.
    pub open spec fn start(config: WorkerConfig, cadence: Cadence) -> SchedulerState {
        SchedulerState {
            lifecycle: Lifecycle::Idle,
            cadence,
            config,
            pool: PoolState::empty(config.max_concurrent_jobs as nat, config.on_handler_fault),
        }
    }

    /// The invariant of the scheduler: a valid configuration, a well-formed
    /// pool of the configured size, nothing waiting once cancelled, and
    /// nothing held once stopped.
    pub open spec fn wf(self) -> bool {
        &&& self.config.valid()
        &&& self.pool.wf()
        &&& self.pool.capacity == self.config.max_concurrent_jobs
        &&& self.pool.policy == self.config.on_handler_fault
        &&& self.lifecycle is Stopping ==> self.pool.pending.len() == 0 && self.pool.in_flight()
            > 0
        &&& self.lifecycle is Stopped ==> self.pool.idle()
    }

    /// The worker was cancelled.
    pub open spec fn cancelled(self) -> bool {
        self.lifecycle is Stopping || self.lifecycle is Stopped
    }

    /// The size of the next activation request: the spare capacity of the
    /// pool, and never more than the configured concurrency.
    pub open spec fn batch_size(self) -> nat {
        if self.pool.spare_capacity() <= self.config.max_concurrent_jobs {
            self.pool.spare_capacity()
        } else {
            self.config.max_concurrent_jobs as nat
        }
    }

    /// A poll that falls due now leads to an activation call.
    pub open spec fn polls(self) -> bool {
        self.lifecycle is Idle && self.batch_size() > 0
    }

    /// The activation call made when a poll falls due.
    pub open spec fn poll_request(self) -> Option<ActivationRequest> {
        if self.polls() {
            Some(request_for(self.config, self.batch_size() as usize))
        } else {
            None
        }
    }

    /// The scheduler after a poll fell due.
    pub open spec fn poll(self) -> SchedulerState {
        if self.polls() {
            SchedulerState { lifecycle: Lifecycle::Polling, ..self }
        } else {
            self
        }
    }

    /// The jobs to start when the activation call returned `response`.
    pub open spec fn activated_run(self, response: Result<Vec<Job>, String>) -> Seq<Job> {
        match response {
            Ok(jobs) if self.lifecycle is Polling => self.pool.started(jobs@),
            _ => Seq::empty(),
        }
    }

    /// The jobs given back when the activation call returned `response`:
    /// duplicates of held leases, or the whole batch where no activation
    /// was outstanding.
    pub open spec fn activated_released(self, response: Result<Vec<Job>, String>) -> Seq<Job> {
        match response {
            Ok(jobs) => if self.lifecycle is Polling {
                self.pool.refused(jobs@)
            } else {
                jobs@
            },
            Err(_) => Seq::empty(),
        }
    }

    /// The error surfaced when the activation call returned `response`.
    pub open spec fn activated_error(self, response: Result<Vec<Job>, String>) -> Option<Error> {
        match response {
            Ok(_) => None,
            Err(detail) => Some(Error::ActivateJobError(detail)),
        }
    }

    /// The scheduler after the activation call returned `response`.
    pub open spec fn activated(self, response: Result<Vec<Job>, String>) -> SchedulerState {
        if self.lifecycle is Polling {
            match response {
                Ok(jobs) => SchedulerState {
                    lifecycle: if self.pool.started(jobs@).len() > 0 {
                        Lifecycle::Dispatching
                    } else {
                        Lifecycle::Idle
                    },
                    pool: self.pool.submit(jobs@),
                    ..self
                },
                Err(_) => SchedulerState { lifecycle: Lifecycle::Idle, ..self },
            }
        } else {
            self
        }
    }

    /// The scheduler after the handlers of the last batch were started.
    pub open spec fn dispatched(self) -> SchedulerState {
        if self.lifecycle is Dispatching {
            SchedulerState { lifecycle: Lifecycle::Idle, ..self }
        } else {
            self
        }
    }

    /// The scheduler with `pool` in place of its pool; a cancelled
    /// scheduler whose pool has drained is stopped.
    pub open spec fn with_pool(self, pool: PoolState) -> SchedulerState {
        SchedulerState {
            lifecycle: if self.lifecycle is Stopping && pool.active.is_empty() {
                Lifecycle::Stopped
            } else {
                self.lifecycle
            },
            pool,
            ..self
        }
    }

    /// The scheduler after the handler of `key` ended with `outcome`.
    pub open spec fn handler_finished(self, key: i64, outcome: JobOutcome) -> SchedulerState {
        self.with_pool(self.pool.finish(key, outcome))
    }

    /// The scheduler after the report for `key` returned.
    pub open spec fn report_finished(self, key: i64) -> SchedulerState {
        self.with_pool(self.pool.settle(key))
    }

    /// The scheduler after the worker was cancelled: no job waits any more,
    /// and the occupied slots are left to drain.
    pub open spec fn stop(self) -> SchedulerState {
        if self.lifecycle is Stopped {
            self
        } else {
            SchedulerState {
                lifecycle: if self.pool.active.is_empty() {
                    Lifecycle::Stopped
                } else {
                    Lifecycle::Stopping
                },
                pool: self.pool.release_pending(),
                ..self
            }
        }
    }

    /// The jobs given back when the worker is cancelled.
    pub open spec fn stop_released(self) -> Seq<Job> {
        if self.lifecycle is Stopped {
            Seq::empty()
        } else {
            self.pool.pending
        }
    }

    /// The scheduler after the time allowed for draining ran out.
    pub open spec fn drain_expired(self) -> SchedulerState {
        if self.lifecycle is Stopping {
            SchedulerState { lifecycle: Lifecycle::Stopped, pool: self.pool.abandon(), ..self }
        } else {
            self
        }
    }

    /// The number of slots given up when draining runs out of time.
    pub open spec fn drain_lost(self) -> nat {
        if self.lifecycle is Stopping {
            self.pool.in_flight()
        } else {
            0
        }
    }

    /// When the next poll falls due.
    pub open spec fn next_poll(self) -> PollSchedule {
        match self.lifecycle {
            Lifecycle::Idle => match self.cadence {
                Cadence::Fixed => PollSchedule::After(self.config.poll_interval),
                Cadence::Reactive => if self.batch_size() > 0 {
                    PollSchedule::Immediately
                } else {
                    PollSchedule::WhenCapacityFrees
                },
            },
            Lifecycle::Polling => PollSchedule::AfterThisCycle,
            Lifecycle::Dispatching => PollSchedule::AfterThisCycle,
            Lifecycle::Stopping => PollSchedule::Never,
            Lifecycle::Stopped => PollSchedule::Never,
        }
    }

    /// `fx` is what the scheduler asks for in answer to `event`.
    pub open spec fn answers(self, event: Event, fx: Effects) -> bool {
        match event {
            Event::PollDue => {
                &&& fx.activate == self.poll_request()
                &&& fx.run@.len() == 0
                &&& fx.report is None
                &&& fx.error is None
                &&& fx.released@.len() == 0
                &&& fx.abandoned == 0
            },
            Event::Activated(response) => {
                &&& fx.activate is None
                &&& fx.run@ == self.activated_run(response)
                &&& fx.report is None
                &&& fx.error == self.activated_error(response)
                &&& fx.released@ == self.activated_released(response)
                &&& fx.abandoned == 0
            },
            Event::Dispatched => {
                &&& fx.activate is None
                &&& fx.run@.len() == 0
                &&& fx.report is None
                &&& fx.error is None
                &&& fx.released@.len() == 0
                &&& fx.abandoned == 0
            },
            Event::HandlerFinished(key, outcome) => {
                &&& fx.activate is None
                &&& fx.run@ == one_or_none(self.pool.finish_promoted(key, outcome))
                &&& self.pool.running(key) ==> reports(
                    fx.report,
                    key,
                    outcome,
                    self.config.on_handler_fault,
                )
                &&& !self.pool.running(key) ==> fx.report is None
                &&& fx.error is None
                &&& fx.released@.len() == 0
                &&& fx.abandoned == 0
            },
            Event::Reported(key, result) => {
                &&& fx.activate is None
                &&& fx.run@ == one_or_none(self.pool.settle_promoted(key))
                &&& fx.report is None
                &&& fx.error == self.pool.settle_error(key, result)
                &&& fx.released@.len() == 0
                &&& fx.abandoned == 0
            },
            Event::Cancel => {
                &&& fx.activate is None
                &&& fx.run@.len() == 0
                &&& fx.report is None
                &&& fx.error is None
                &&& fx.released@ == self.stop_released()
                &&& fx.abandoned == 0
            },
            Event::DrainExpired => {
                &&& fx.activate is None
                &&& fx.run@.len() == 0
                &&& fx.report is None
                &&& fx.error is None
                &&& fx.released@.len() == 0
                &&& fx.abandoned == self.drain_lost()
            },
        }
    }

    /// The scheduler after `event`.
    pub open spec fn next(self, event: Event) -> SchedulerState {
        match event {
            Event::PollDue => self.poll(),
            Event::Activated(response) => self.activated(response),
            Event::Dispatched => self.dispatched(),
            Event::HandlerFinished(key, outcome) => self.handler_finished(key, outcome),
            Event::Reported(key, _) => self.report_finished(key),
            Event::Cancel => self.stop(),
            Event::DrainExpired => self.drain_expired(),
        }
    }

    /// The scheduler after the events of `trace`, in order.
    pub open spec fn run(self, trace: Seq<Event>) -> SchedulerState
        decreases trace.len(),
    {
        if trace.len() == 0 {
            self
        } else {
            self.run(trace.drop_last()).next(trace.last())
        }
    }
}

/// Every event leaves a well-formed scheduler well-formed, with the
/// configuration and the cadence it started with.
pub proof fn lemma_next_wf(state: SchedulerState, event: Event)
    requires
        state.wf(),
    ensures
        state.next(event).wf(),
        state.next(event).config == state.config,
        state.next(event).cadence == state.cadence,
{
    match event {
        Event::PollDue => {},
        Event::Activated(response) => {
            if let Ok(jobs) = response {
                lemma_submit_wf(state.pool, jobs@);
            }
        },
        Event::Dispatched => {},
        Event::HandlerFinished(key, outcome) => {
            lemma_finish_wf(state.pool, key, outcome);
            lemma_drained(state.pool.finish(key, outcome));
        },
        Event::Reported(key, _) => {
            lemma_settle_wf(state.pool, key);
            lemma_drained(state.pool.settle(key));
        },
        Event::Cancel => {
            lemma_drained(state.pool.release_pending());
        },
        Event::DrainExpired => {},
    }
}

/// A pool with a finite set of slots has none occupied exactly when the
/// number of occupied slots is zero.
proof fn lemma_drained(pool: PoolState)
    requires
        pool.active.dom().finite(),
    ensures
        pool.active.is_empty() <==> pool.in_flight() == 0,
{
    if pool.in_flight() == 0 {
        pool.active.dom().lemma_len0_is_empty();
    }
}

} // verus!
