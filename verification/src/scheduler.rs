//! The executable poll scheduler: the engine of one worker.
//!
//! The scheduler performs no remote call and starts no handler itself. It
//! is told what happened (a poll is due, the activation call returned, a
//! handler ended, a report returned, the worker is cancelled) and answers
//! with what is to be done next. Its view is a [`SchedulerState`], and
//! every operation is specified as the matching transition of that state.

use crate::config::WorkerConfig;
use crate::error::Error;
use crate::job::ActivationRequest;
use crate::job::Cadence;
use crate::job::Job;
use crate::job::JobOutcome;
use crate::poller::activation_request;
use crate::poller::collect;
use crate::pool::Admitted;
use crate::pool::Completion;
use crate::pool::DispatchPool;
use crate::pool::Settlement;
use crate::protocol::Effects;
use crate::protocol::Event;
use crate::protocol::Lifecycle;
use crate::protocol::PollSchedule;
use crate::reporter::reports;
use crate::scheduler_state::SchedulerState;
use crate::scheduler_state::lemma_next_wf;
use crate::scheduler_state::one_or_none;
use vstd::prelude::*;

verus! {

/// What the return of the activation call asks for.
#[derive(Debug)]
pub struct Dispatch {
    /// The jobs whose handlers are to be started now.
    pub run: Vec<Job>,
    /// The leased jobs given back unprocessed; their leases expire.
    pub released: Vec<Job>,
    /// The activation error to surface, if the call failed.
    pub error: Option<Error>,
}

/// The executable poll scheduler of one worker.
#[derive(Debug)]
pub struct PollScheduler {
    lifecycle: Lifecycle,
    cadence: Cadence,
    config: WorkerConfig,
    pool: DispatchPool,
}

impl View for PollScheduler {
    type V = SchedulerState;

    closed spec fn view(&self) -> SchedulerState {
        SchedulerState {
            lifecycle: self.lifecycle,
            cadence: self.cadence,
            config: self.config,
            pool: self.pool@,
        }
    }
}

impl PollScheduler {
    /// The scheduler satisfies its invariant.
    pub open spec fn wf(&self) -> bool {
        self@.wf()
    }

    /// Starts the scheduler of a worker with the given options, or refuses
    /// options that are not valid. The scheduler starts idle, with an empty
    /// pool of `max_concurrent_jobs` slots.
    pub fn new(config: WorkerConfig, cadence: Cadence) -> (started: Result<PollScheduler, Error>)
        ensures
            match started {
                Ok(scheduler) => {
                    &&& config.valid()
                    &&& scheduler@ == SchedulerState::start(config, cadence)
                    &&& scheduler.wf()
                },
                Err(error) => {
                    &&& config.problem() matches Some(problem)
                    &&& error == Error::ConfigurationError(problem)
                },
            },
    {
        match config.validate() {
            Err(error) => Err(error),
            Ok(_) => {
                let pool = DispatchPool::new(config.max_concurrent_jobs, config.on_handler_fault);
                Ok(PollScheduler { lifecycle: Lifecycle::Idle, cadence, config, pool })
            },
        }
    }

    /// Where the scheduler stands in its cycle.
    pub fn lifecycle(&self) -> (lifecycle: Lifecycle)
        ensures
            lifecycle == self@.lifecycle,
    {
        self.lifecycle
    }

    /// The cadence the scheduler polls on.
    pub fn cadence(&self) -> (cadence: Cadence)
        ensures
            cadence == self@.cadence,
    {
        self.cadence
    }

    /// The options the worker was started with.
    pub fn config(&self) -> (config: &WorkerConfig)
        ensures
            *config == self@.config,
    {
        &self.config
    }

    /// The number of occupied slots: handlers that run and reports in flight.
    pub fn in_flight(&self) -> (n: usize)
        ensures
            n == self@.pool.in_flight(),
    {
        self.pool.in_flight()
    }

    /// The number of leased jobs that wait for a slot.
    pub fn waiting(&self) -> (n: usize)
        ensures
            n == self@.pool.pending.len(),
    {
        self.pool.waiting()
    }

    /// The size of the next activation request.
    pub fn batch_size(&self) -> (n: usize)
        requires
            self.wf(),
        ensures
            n == self@.batch_size(),
            n <= self@.config.max_concurrent_jobs,
    {
        let spare = self.pool.spare_capacity();
        if spare <= self.config.max_concurrent_jobs {
            spare
        } else {
            self.config.max_concurrent_jobs
        }
    }

    /// When the next poll falls due.
    pub fn next_poll(&self) -> (schedule: PollSchedule)
        requires
            self.wf(),
        ensures
            schedule == self@.next_poll(),
    {
        match self.lifecycle {
            Lifecycle::Idle => match self.cadence {
                Cadence::Fixed => PollSchedule::After(self.config.poll_interval),
                Cadence::Reactive => if self.batch_size() > 0 {
                    PollSchedule::Immediately
                } else {
                    PollSchedule::WhenCapacityFrees
                },
            },
            Lifecycle::Polling => PollSchedule::AfterThisCycle,
            Lifecycle::Dispatching => PollSchedule::AfterThisCycle,
            Lifecycle::Stopping => PollSchedule::Never,
            Lifecycle::Stopped => PollSchedule::Never,
        }
    }

    /// A poll has fallen due. An idle scheduler whose pool has spare
    /// capacity answers with the activation request to send, sized to that
    /// capacity, and waits for its return. Otherwise no call is made and
    /// nothing changes: not while an activation is outstanding, not while
    /// the pool is full, not once the worker is cancelled.
    pub fn poll(&mut self) -> (request: Option<ActivationRequest>)
        requires
            old(self).wf(),
        ensures
            final(self)@ == old(self)@.poll(),
            request == old(self)@.poll_request(),
            final(self).wf(),
    {
        match self.lifecycle {
            Lifecycle::Idle => {
                let amount = self.batch_size();
                if amount == 0 {
                    None
                } else {
                    self.lifecycle = Lifecycle::Polling;
                    Some(activation_request(&self.config, amount))
                }
            },
            _ => None,
        }
    }

    /// The activation call returned. A failed call is surfaced and the
    /// scheduler is idle again. A batch is handed to the pool: the jobs
    /// that found a slot are to be started, duplicates of held leases are
    /// given back, the rest waits. Where no activation was outstanding,
    /// as after a cancellation, the whole batch is given back.
    pub fn activated(&mut self, response: Result<Vec<Job>, String>) -> (out: Dispatch)
        requires
            old(self).wf(),
        ensures
            final(self)@ == old(self)@.activated(response),
            out.run@ == old(self)@.activated_run(response),
            out.released@ == old(self)@.activated_released(response),
            out.error == old(self)@.activated_error(response),
            final(self).wf(),
    {
        proof {
            lemma_next_wf(self@, Event::Activated(response));
        }
        match collect(response) {
            Err(error) => {
                match self.lifecycle {
                    Lifecycle::Polling => {
                        self.lifecycle = Lifecycle::Idle;
                    },
                    _ => {},
                }
                Dispatch { run: Vec::new(), released: Vec::new(), error: Some(error) }
            },
            Ok(jobs) => match self.lifecycle {
                Lifecycle::Polling => {
                    let Admitted { run, refused } = self.pool.submit(jobs);
                    self.lifecycle = if run.len() > 0 {
                        Lifecycle::Dispatching
                    } else {
                        Lifecycle::Idle
                    };
                    Dispatch { run, released: refused, error: None }
                },
                _ => Dispatch { run: Vec::new(), released: jobs, error: None },
            },
        }
    }

    /// The handlers of the last batch have been started: the scheduler is
    /// idle again, without waiting for any of them to end.
    pub fn dispatched(&mut self)
        requires
            old(self).wf(),
        ensures
            final(self)@ == old(self)@.dispatched(),
            final(self).wf(),
    {
        match self.lifecycle {
            Lifecycle::Dispatching => {
                self.lifecycle = Lifecycle::Idle;
            },
            _ => {},
        }
    }

    /// Marks a cancelled scheduler as stopped once its pool has drained.
    fn settle_lifecycle(&mut self)
        requires
            old(self)@.lifecycle is Stopping ==> old(self)@.pool.pending.len() == 0,
        ensures
            final(self)@ == old(self)@.with_pool(old(self)@.pool),
    {
        match self.lifecycle {
            Lifecycle::Stopping => {
                if self.pool.is_idle() {
                    self.lifecycle = Lifecycle::Stopped;
                }
            },
            _ => {},
        }
    }

    /// The handler of the job `key` ended with `outcome`. For a job that is
    /// running, the answer names the one remote call owed for it, or none
    /// where the job is dropped. A second outcome for the same lease, or an
    /// outcome for an unknown job, is ignored.
    pub fn handler_finished(&mut self, key: i64, outcome: JobOutcome) -> (out: Completion)
        requires
            old(self).wf(),
        ensures
            final(self)@ == old(self)@.handler_finished(key, outcome),
            old(self)@.pool.running(key) ==> reports(
                out.report,
                key,
                outcome,
                old(self)@.config.on_handler_fault,
            ),
            !old(self)@.pool.running(key) ==> out.report is None,
            out.run == old(self)@.pool.finish_promoted(key, outcome),
            final(self).wf(),
    {
        proof {
            lemma_next_wf(self@, Event::HandlerFinished(key, outcome));
        }
        let out = self.pool.finish(key, outcome);
        self.settle_lifecycle();
        out
    }

    /// The report for the job `key` returned `result`. The slot of the job
    /// is freed whatever the result. A failed report is surfaced once, as
    /// an error that names the job, and is not repeated. A result for a
    /// job with no report in flight is ignored.
    pub fn report_finished(&mut self, key: i64, result: Result<(), String>) -> (out: Settlement)
        requires
            old(self).wf(),
        ensures
            final(self)@ == old(self)@.report_finished(key),
            out.error == old(self)@.pool.settle_error(key, result),
            out.run == old(self)@.pool.settle_promoted(key),
            final(self).wf(),
    {
        proof {
            lemma_next_wf(self@, Event::Reported(key, result));
        }
        let out = self.pool.settle(key, result);
        self.settle_lifecycle();
        out
    }

    /// Cancels the worker. From now on no poll leads to an activation call.
    /// Jobs that wait for a slot are given back unprocessed; handlers that
    /// run and reports in flight are left to finish, and the scheduler is
    /// stopped as soon as none is left.
    pub fn stop(&mut self) -> (released: Vec<Job>)
        requires
            old(self).wf(),
        ensures
            final(self)@ == old(self)@.stop(),
            released@ == old(self)@.stop_released(),
            final(self)@.cancelled(),
            final(self).wf(),
    {
        proof {
            lemma_next_wf(self@, Event::Cancel);
        }
        match self.lifecycle {
            Lifecycle::Stopped => Vec::new(),
            _ => {
                let released = self.pool.release_pending();
                self.lifecycle = if self.pool.is_idle() {
                    Lifecycle::Stopped
                } else {
                    Lifecycle::Stopping
                };
                released
            },
        }
    }

    /// The time allowed for draining has run out: a scheduler that is
    /// still stopping gives up its occupied slots, whose leases expire,
    /// and is stopped. The answer is the number of slots given up.
    pub fn drain_expired(&mut self) -> (lost: usize)
        requires
            old(self).wf(),
        ensures
            final(self)@ == old(self)@.drain_expired(),
            lost == old(self)@.drain_lost(),
            final(self).wf(),
    {
        match self.lifecycle {
            Lifecycle::Stopping => {
                let lost = self.pool.abandon();
                self.lifecycle = Lifecycle::Stopped;
                lost
            },
            _ => 0,
        }
    }

    /// The jobs to start when a slot was freed: the one that took it, or none.
    fn started_now(job: Option<Job>) -> (run: Vec<Job>)
        ensures
            run@ == one_or_none(job),
    {
        let mut run: Vec<Job> = Vec::new();
        match job {
            Some(job) => {
                run.push(job);
            },
            None => {},
        }
        run
    }

    /// Tells the scheduler what happened and answers with everything that
    /// is to be done about it. This is the whole engine as one transition
    /// function: the caller performs the effects and reports each result
    /// back as a later event.
    pub fn step(&mut self, event: Event) -> (fx: Effects)
        requires
            old(self).wf(),
        ensures
            final(self)@ == old(self)@.next(event),
            old(self)@.answers(event, fx),
            final(self).wf(),
    {
        match event {
            Event::PollDue => {
                let activate = self.poll();
                Effects {
                    activate,
                    run: Vec::new(),
                    report: None,
                    error: None,
                    released: Vec::new(),
                    abandoned: 0,
                }
            },
            Event::Activated(response) => {
                let Dispatch { run, released, error } = self.activated(response);
                Effects { activate: None, run, report: None, error, released, abandoned: 0 }
            },
            Event::Dispatched => {
                self.dispatched();
                Effects {
                    activate: None,
                    run: Vec::new(),
                    report: None,
                    error: None,
                    released: Vec::new(),
                    abandoned: 0,
                }
            },
            Event::HandlerFinished(key, outcome) => {
                let Completion { report, run } = self.handler_finished(key, outcome);
                Effects {
                    activate: None,
                    run: Self::started_now(run),
                    report,
                    error: None,
                    released: Vec::new(),
                    abandoned: 0,
                }
            },
            Event::Reported(key, result) => {
                let Settlement { error, run } = self.report_finished(key, result);
                Effects {
                    activate: None,
                    run: Self::started_now(run),
                    report: None,
                    error,
                    released: Vec::new(),
                    abandoned: 0,
                }
            },
            Event::Cancel => {
                let released = self.stop();
                Effects {
                    activate: None,
                    run: Vec::new(),
                    report: None,
                    error: None,
                    released,
                    abandoned: 0,
                }
            },
            Event::DrainExpired => {
                let abandoned = self.drain_expired();
                Effects {
                    activate: None,
                    run: Vec::new(),
                    report: None,
                    error: None,
                    released: Vec::new(),
                    abandoned,
                }
            },
        }
    }
}

} // verus!
