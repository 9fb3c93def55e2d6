//! What holds of a worker whatever happens to it: the theorems that the
//! pool and the scheduler are built for.

use crate::job::FaultPolicy;
use crate::job::Job;
use crate::job::JobOutcome;
use crate::job::ReportCall;
use crate::pool_state::PoolState;
use crate::pool_state::lemma_finish_stage;
use crate::pool_state::lemma_promoted_from_queue;
use crate::pool_state::lemma_running_by_batch;
use crate::pool_state::lemma_settle_stage;
use crate::pool_state::lemma_settle_wf;
use crate::pool_state::lemma_started_are_fresh;
use crate::pool_state::lemma_started_fill_free_slots;
use crate::pool_state::lemma_submit_keeps_leases;
use crate::pool_state::lemma_submit_leaves_others;
use crate::pool_state::lemma_submit_wf;
use crate::pool_state::lemma_vacate_promote_keeps;
use crate::pool_state::lemma_vacate_promote_stage;
use crate::pool_state::mentions;
use crate::protocol::Effects;
use crate::protocol::Event;
use crate::protocol::Lifecycle;
use crate::protocol::PollSchedule;
use crate::reporter::fault_message;
use crate::reporter::lemma_fault_message_nonempty;
use crate::reporter::report_phase;
use crate::reporter::reports;
use crate::scheduler_state::SchedulerState;
use crate::scheduler_state::lemma_next_wf;
use vstd::prelude::*;

verus! {

impl SchedulerState {
    /// In answer to `event` a report call is owed for the job `key`: the
    /// event is the end of the handler of `key`, that handler was running,
    /// and its outcome is not dropped.
    pub open spec fn owes_report(self, event: Event, key: i64) -> bool {
        &&& event matches Event::HandlerFinished(finished, outcome)
        &&& finished == key
        &&& self.pool.running(key)
        &&& report_phase(outcome, self.config.on_handler_fault) is Some
    }

    /// The number of report calls owed for the job `key` over `trace`.
    pub open spec fn reports_owed(self, trace: Seq<Event>, key: i64) -> nat
        decreases trace.len(),
    {
        if trace.len() == 0 {
            0
        } else {
            let earlier = self.reports_owed(trace.drop_last(), key);
            if self.run(trace.drop_last()).owes_report(trace.last(), key) {
                earlier + 1
            } else {
                earlier
            }
        }
    }

    /// In answer to `event` the handler of the job `key` is started: the
    /// event freed a slot, and the job took it from the head of the queue.
    pub open spec fn starts_waiting(self, event: Event, key: i64) -> bool {
        match event {
            Event::HandlerFinished(finished, outcome) => {
                &&& self.pool.finish_promoted(finished, outcome) matches Some(job)
                &&& job.key == key
            },
            Event::Reported(settled, _) => {
                &&& self.pool.settle_promoted(settled) matches Some(job)
                &&& job.key == key
            },
            _ => false,
        }
    }

    /// In answer to `event` the handler of the job `key` is started, out
    /// of a fresh batch or out of the queue.
    pub open spec fn starts_handler(self, event: Event, key: i64) -> bool {
        match event {
            Event::Activated(response) => exists|i: int|
                0 <= i < self.activated_run(response).len() && (#[trigger] self.activated_run(
                    response,
                )[i]).key == key,
            _ => self.starts_waiting(event, key),
        }
    }

    /// How often the handler of the job `key` is started over `trace`.
    pub open spec fn starts(self, trace: Seq<Event>, key: i64) -> nat
        decreases trace.len(),
    {
        if trace.len() == 0 {
            0
        } else {
            let earlier = self.starts(trace.drop_last(), key);
            if self.run(trace.drop_last()).starts_handler(trace.last(), key) {
                earlier + 1
            } else {
                earlier
            }
        }
    }

    /// The number of activation calls made over `trace`.
    pub open spec fn activations(self, trace: Seq<Event>) -> nat
        decreases trace.len(),
    {
        if trace.len() == 0 {
            0
        } else {
            let earlier = self.activations(trace.drop_last());
            if trace.last() is PollDue && self.run(trace.drop_last()).polls() {
                earlier + 1
            } else {
                earlier
            }
        }
    }
}

/// `event` is the end of the handler of the job `key`.
pub open spec fn ends_handler(event: Event, key: i64) -> bool {
    event matches Event::HandlerFinished(finished, _) && finished == key
}

/// `event` is the return of the report for the job `key`.
pub open spec fn ends_report(event: Event, key: i64) -> bool {
    event matches Event::Reported(settled, _) && settled == key
}

/// `event` is the return of an activation call with a batch that holds a
/// job with this key.
pub open spec fn leases_anew(event: Event, key: i64) -> bool {
    event matches Event::Activated(Ok(jobs)) && mentions(jobs@, key)
}

/// No event in `trace` brings a batch that holds a job with this key.
pub open spec fn never_leased_anew(trace: Seq<Event>, key: i64) -> bool {
    forall|i: int| 0 <= i < trace.len() ==> !leases_anew(#[trigger] trace[i], key)
}

/// What holds of a trace that brings no job with this key holds of all
/// but its last event, and its last event brings none.
proof fn lemma_never_leased_anew_earlier(trace: Seq<Event>, key: i64)
    requires
        never_leased_anew(trace, key),
        trace.len() > 0,
    ensures
        never_leased_anew(trace.drop_last(), key),
        !leases_anew(trace.last(), key),
{
    let earlier = trace.drop_last();
    assert forall|i: int| 0 <= i < earlier.len() implies !leases_anew(
        #[trigger] earlier[i],
        key,
    ) by {
        assert(earlier[i] == trace[i]);
    }
    assert(trace.last() == trace[trace.len() - 1]);
}

/// Whatever happens to a worker, its scheduler stays well-formed: at every
/// instant the number of occupied slots, and with it the number of
/// handlers that run, is at most `max_concurrent_jobs`.
pub proof fn lemma_never_over_capacity(state: SchedulerState, trace: Seq<Event>)
    requires
        state.wf(),
    ensures
        state.run(trace).wf(),
        state.run(trace).config == state.config,
        state.run(trace).cadence == state.cadence,
        state.run(trace).pool.in_flight() <= state.config.max_concurrent_jobs,
    decreases trace.len(),
{
    if trace.len() > 0 {
        lemma_never_over_capacity(state, trace.drop_last());
        lemma_next_wf(state.run(trace.drop_last()), trace.last());
    }
}

/// A batch of any size starts at most as many handlers as the pool has
/// free slots, and leaves at most `capacity` slots occupied.
pub proof fn lemma_batch_within_capacity(pool: PoolState, batch: Seq<Job>)
    requires
        pool.wf(),
    ensures
        pool.started(batch).len() <= pool.capacity - pool.in_flight(),
        pool.submit(batch).in_flight() <= pool.capacity,
{
    lemma_started_fill_free_slots(pool, batch);
    lemma_submit_wf(pool, batch);
}

/// In the answer to an event a report call appears only where one is owed,
/// and it names the job it is owed for.
pub proof fn lemma_report_only_when_owed(state: SchedulerState, event: Event, fx: Effects)
    requires
        state.answers(event, fx),
    ensures
        fx.report matches Some(call) ==> state.owes_report(event, call.key()),
        fx.report is None ==> forall|key: i64| !state.owes_report(event, key),
{
}

/// No event moves a lease away from its end, unless it brings the job
/// anew; an event for which a report is owed moves the lease from running
/// to reporting.
pub proof fn lemma_lease_only_advances(state: SchedulerState, event: Event, key: i64)
    requires
        state.wf(),
        !leases_anew(event, key),
    ensures
        state.next(event).pool.stage(key) <= state.pool.stage(key),
        state.owes_report(event, key) ==> state.pool.stage(key) == 2 && state.next(
            event,
        ).pool.stage(key) == 1,
{
    match event {
        Event::Activated(response) => {
            if let Ok(jobs) = response {
                lemma_submit_leaves_others(state.pool, jobs@, key);
            }
        },
        Event::HandlerFinished(finished, outcome) => {
            lemma_finish_stage(state.pool, finished, outcome, key);
        },
        Event::Reported(settled, _) => {
            lemma_settle_stage(state.pool, settled, key);
        },
        Event::Cancel => {
            if state.stop().pool.queued(key) {
                let i = choose|i: int|
                    0 <= i < state.stop().pool.pending.len() && (
                    #[trigger] state.stop().pool.pending[i]).key == key;
            }
        },
        Event::DrainExpired => {
            if state.drain_expired().pool.queued(key) {
                let i = choose|i: int|
                    0 <= i < state.drain_expired().pool.pending.len() && (
                    #[trigger] state.drain_expired().pool.pending[i]).key == key;
            }
        },
        _ => {},
    }
}

/// No lease is lost track of. A job whose handler runs stays running until
/// its outcome arrives; a job whose report is in flight stays so until the
/// report returns; a job that waits stays waiting until it is started or
/// the worker is cancelled. Only the end of the drain time gives leases up.
pub proof fn lemma_lease_is_kept(state: SchedulerState, event: Event, key: i64)
    requires
        state.wf(),
        !(event is DrainExpired),
    ensures
        state.pool.stage(key) == 2 && !ends_handler(event, key) ==> state.next(
            event,
        ).pool.stage(key) == 2,
        state.pool.stage(key) == 1 && !ends_report(event, key) ==> state.next(event).pool.stage(
            key,
        ) == 1,
        state.pool.stage(key) == 3 && !(event is Cancel) ==> state.next(event).pool.stage(key)
            == 3 || (state.next(event).pool.stage(key) == 2 && state.starts_waiting(event, key)),
{
    let after = state.next(event).pool;
    match event {
        Event::Activated(response) => {
            if let Ok(jobs) = response {
                if state.pool.holds(key) {
                    lemma_submit_keeps_leases(state.pool, jobs@, key);
                }
            }
        },
        Event::HandlerFinished(finished, outcome) => {
            if finished != key && state.pool.running(finished) {
                if report_phase(outcome, state.pool.policy) is None {
                    lemma_vacate_promote_keeps(state.pool, finished, key);
                } else {
                    assert(after == state.pool.finish(finished, outcome));
                    assert(after.pending == state.pool.pending);
                    assert(after.queued(key) == state.pool.queued(key));
                }
            }
        },
        Event::Reported(settled, _) => {
            if settled != key && state.pool.reporting(settled) {
                lemma_vacate_promote_keeps(state.pool, settled, key);
            }
        },
        Event::Cancel => {
            assert(after.active == state.pool.active);
        },
        _ => {},
    }
}

/// One if the handler of the job `key` runs, zero if not.
pub open spec fn running_now(state: SchedulerState, key: i64) -> nat {
    if state.pool.running(key) {
        1
    } else {
        0
    }
}

/// The handler of a job runs after an event only if it ran before or the
/// event started it.
pub proof fn lemma_running_only_by_start(state: SchedulerState, event: Event, key: i64)
    requires
        state.wf(),
        state.next(event).pool.running(key),
    ensures
        state.pool.running(key) || state.starts_handler(event, key),
{
    if !state.pool.running(key) {
        let after = state.next(event).pool;
        match event {
            Event::Activated(response) => {
                if let Ok(jobs) = response {
                    if state.lifecycle is Polling {
                        lemma_running_by_batch(state.pool, jobs@, key);
                        let i = choose|i: int|
                            0 <= i < state.pool.started(jobs@).len() && (
                            #[trigger] state.pool.started(jobs@)[i]).key == key;
                        assert(state.activated_run(response)[i].key == key);
                    }
                }
            },
            Event::HandlerFinished(finished, outcome) => {
                if state.pool.running(finished) {
                    if report_phase(outcome, state.pool.policy) is None {
                        if finished == key {
                            lemma_vacate_promote_stage(state.pool, finished, key);
                        } else {
                            lemma_vacate_promote_keeps(state.pool, finished, key);
                        }
                    } else {
                        assert(after == state.pool.finish(finished, outcome));
                    }
                }
            },
            Event::Reported(settled, _) => {
                if state.pool.reporting(settled) {
                    if settled == key {
                        lemma_vacate_promote_stage(state.pool, settled, key);
                    } else {
                        lemma_vacate_promote_keeps(state.pool, settled, key);
                    }
                }
            },
            _ => {},
        }
    }
}

/// For every job and every course of events, report calls never outnumber
/// handler starts: each call owed for a job uses up one start of its
/// handler, or the run that was under way at the beginning. So one
/// execution of a job is answered by a completion, by a failure or by no
/// call, and never by two.
pub proof fn lemma_reports_never_outnumber_starts(
    state: SchedulerState,
    trace: Seq<Event>,
    key: i64,
)
    requires
        state.wf(),
    ensures
        state.reports_owed(trace, key) + running_now(state.run(trace), key) <= state.starts(
            trace,
            key,
        ) + running_now(state, key),
    decreases trace.len(),
{
    if trace.len() > 0 {
        let earlier = trace.drop_last();
        let before = state.run(earlier);
        lemma_reports_never_outnumber_starts(state, earlier, key);
        lemma_never_over_capacity(state, earlier);
        if before.owes_report(trace.last(), key) {
            if let Event::HandlerFinished(finished, outcome) = trace.last() {
                lemma_finish_stage(before.pool, finished, outcome, key);
            }
        } else if before.starts_handler(trace.last(), key) {
            lemma_start_only_when_not_in_flight(before, trace.last(), key);
        } else if before.next(trace.last()).pool.running(key) {
            lemma_running_only_by_start(before, trace.last(), key);
        }
    }
}

/// For every job, over any course of events in which it is not leased
/// anew, at most one report call is owed: a completion, a failure, or
/// none at all, and never two. Once the call is owed the lease is past
/// its handler, so no later outcome for the job leads to another.
pub proof fn lemma_one_report_per_lease(state: SchedulerState, trace: Seq<Event>, key: i64)
    requires
        state.wf(),
        never_leased_anew(trace, key),
    ensures
        state.reports_owed(trace, key) <= 1,
        state.reports_owed(trace, key) == 1 ==> state.run(trace).pool.stage(key) <= 1,
        state.run(trace).pool.stage(key) <= state.pool.stage(key),
    decreases trace.len(),
{
    if trace.len() > 0 {
        let earlier = trace.drop_last();
        lemma_never_leased_anew_earlier(trace, key);
        lemma_one_report_per_lease(state, earlier, key);
        lemma_never_over_capacity(state, earlier);
        lemma_lease_only_advances(state.run(earlier), trace.last(), key);
    }
}

/// A handler is started in answer to an event only for a job that waited,
/// and the job runs afterwards.
pub proof fn lemma_start_leaves_queue(state: SchedulerState, event: Event, key: i64)
    requires
        state.wf(),
        state.starts_waiting(event, key),
    ensures
        state.pool.stage(key) == 3,
        state.next(event).pool.stage(key) == 2,
{
    match event {
        Event::HandlerFinished(finished, _) => {
            lemma_promoted_from_queue(state.pool, finished);
        },
        Event::Reported(settled, _) => {
            lemma_promoted_from_queue(state.pool, settled);
        },
        _ => {},
    }
}

/// A handler is started only for a job that is not in flight: one that the
/// pool did not hold, or one that waited. It is never started for a job
/// whose handler runs or whose report is in flight, and the job runs
/// afterwards.
pub proof fn lemma_start_only_when_not_in_flight(state: SchedulerState, event: Event, key: i64)
    requires
        state.wf(),
        state.starts_handler(event, key),
    ensures
        state.pool.stage(key) == 0 || state.pool.stage(key) == 3,
        state.next(event).pool.stage(key) == 2,
{
    match event {
        Event::Activated(response) => {
            if let Ok(jobs) = response {
                lemma_started_are_fresh(state.pool, jobs@);
                let i = choose|i: int|
                    0 <= i < state.activated_run(response).len() && (
                    #[trigger] state.activated_run(response)[i]).key == key;
                assert(!state.pool.holds(state.pool.started(jobs@)[i].key));
            }
        },
        _ => {
            lemma_start_leaves_queue(state, event, key);
        },
    }
}

/// For every job, over any course of events in which it is not leased
/// anew, its handler is started at most once, and never after a report
/// for it was owed: each lease is executed at most once.
pub proof fn lemma_one_start_per_lease(state: SchedulerState, trace: Seq<Event>, key: i64)
    requires
        state.wf(),
        never_leased_anew(trace, key),
    ensures
        state.starts(trace, key) <= 1,
        state.starts(trace, key) == 1 ==> state.run(trace).pool.stage(key) <= 2,
        state.pool.stage(key) <= 2 ==> state.starts(trace, key) == 0,
    decreases trace.len(),
{
    if trace.len() > 0 {
        let earlier = trace.drop_last();
        lemma_never_leased_anew_earlier(trace, key);
        lemma_one_start_per_lease(state, earlier, key);
        lemma_one_report_per_lease(state, earlier, key);
        lemma_never_over_capacity(state, earlier);
        lemma_lease_only_advances(state.run(earlier), trace.last(), key);
        if state.run(earlier).starts_handler(trace.last(), key) {
            lemma_start_only_when_not_in_flight(state.run(earlier), trace.last(), key);
        }
    }
}

/// A job whose lease the pool does not hold is never reported, until it is
/// leased anew.
pub proof fn lemma_unknown_job_is_never_reported(
    state: SchedulerState,
    trace: Seq<Event>,
    key: i64,
)
    requires
        state.wf(),
        never_leased_anew(trace, key),
        !state.pool.holds(key),
    ensures
        state.reports_owed(trace, key) == 0,
    decreases trace.len(),
{
    if trace.len() > 0 {
        let earlier = trace.drop_last();
        lemma_never_leased_anew_earlier(trace, key);
        lemma_unknown_job_is_never_reported(state, earlier, key);
        lemma_one_report_per_lease(state, earlier, key);
    }
}

/// A poll with no spare capacity makes no activation call and changes
/// nothing, however often it is repeated.
pub proof fn lemma_full_pool_never_polls(state: SchedulerState, trace: Seq<Event>)
    requires
        state.wf(),
        state.pool.spare_capacity() == 0,
        forall|i: int| 0 <= i < trace.len() ==> (#[trigger] trace[i]) is PollDue,
    ensures
        state.poll_request() is None,
        state.poll() == state,
        state.run(trace) == state,
        state.activations(trace) == 0,
    decreases trace.len(),
{
    if trace.len() > 0 {
        let earlier = trace.drop_last();
        assert forall|i: int| 0 <= i < earlier.len() implies (#[trigger] earlier[i])
            is PollDue by {
            assert(earlier[i] == trace[i]);
        }
        assert(trace.last() == trace[trace.len() - 1]);
        lemma_full_pool_never_polls(state, earlier);
    }
}

/// While an activation call is outstanding no second one is made.
pub proof fn lemma_one_activation_at_a_time(state: SchedulerState)
    requires
        state.lifecycle is Polling,
    ensures
        state.poll_request() is None,
        state.poll() == state,
{
}

/// A handler fault is answered as the policy says: under
/// `ReportAsFailure` by one failure call for the job with a message that
/// is not empty, under `DropAndLetLeaseExpire` by no call.
pub proof fn lemma_fault_follows_policy(call: Option<ReportCall>, key: i64, policy: FaultPolicy)
    requires
        reports(call, key, JobOutcome::Unhandled, policy),
    ensures
        policy is ReportAsFailure ==> {
            &&& call matches Some(ReportCall::FailJob { job_key, error_message })
            &&& job_key == key
            &&& error_message@ == fault_message()
            &&& error_message@.len() > 0
        },
        policy is DropAndLetLeaseExpire ==> call is None,
{
    lemma_fault_message_nonempty();
}

/// An empty batch starts no handler, gives nothing back, owes no report
/// and leaves the pool as it was; the scheduler is idle again and polls
/// next as its cadence says.
pub proof fn lemma_empty_batch_changes_nothing(state: SchedulerState, jobs: Vec<Job>)
    requires
        state.wf(),
        state.lifecycle is Polling,
        jobs@.len() == 0,
    ensures
        state.activated(Ok(jobs)) == (SchedulerState { lifecycle: Lifecycle::Idle, ..state }),
        state.activated_run(Ok(jobs)).len() == 0,
        state.activated_released(Ok(jobs)).len() == 0,
        state.activated_error(Ok(jobs)) is None,
        state.cadence is Fixed ==> state.activated(Ok(jobs)).next_poll() == PollSchedule::After(
            state.config.poll_interval,
        ),
        state.cadence is Reactive && state.batch_size() > 0 ==> state.activated(
            Ok(jobs),
        ).next_poll() == PollSchedule::Immediately,
{
}

/// Cancelling keeps every occupied slot, and from then on the worker stays
/// cancelled and makes no activation call, whatever happens.
pub proof fn lemma_cancelled_never_polls(state: SchedulerState, trace: Seq<Event>)
    requires
        state.wf(),
    ensures
        state.stop().pool.active == state.pool.active,
        state.stop().cancelled(),
        state.cancelled() ==> state.run(trace).cancelled() && state.activations(trace) == 0,
    decreases trace.len(),
{
    if state.cancelled() && trace.len() > 0 {
        lemma_cancelled_never_polls(state, trace.drop_last());
        lemma_never_over_capacity(state, trace.drop_last());
    }
}

/// While a cancelled worker drains, the end of a running handler is
/// answered as at any other time, and the worker is stopped exactly when
/// its last slot is freed.
pub proof fn lemma_draining_reports_and_stops(state: SchedulerState, event: Event)
    requires
        state.wf(),
        state.lifecycle is Stopping,
        event is HandlerFinished || event is Reported,
    ensures
        state.next(event).lifecycle is Stopped <==> state.next(event).pool.in_flight() == 0,
        state.next(event).lifecycle is Stopped || state.next(event).lifecycle is Stopping,
        event matches Event::HandlerFinished(key, outcome) ==> state.next(event).pool
            == state.pool.finish(key, outcome),
{
    lemma_next_wf(state, event);
    if state.next(event).pool.in_flight() == 0 {
        state.next(event).pool.active.dom().lemma_len0_is_empty();
    }
}

/// A failed report is surfaced once, as an error that names the job, and
/// the lease is gone: a second result for the job surfaces nothing, and
/// no later outcome for it leads to another call.
pub proof fn lemma_failed_report_is_final(
    pool: PoolState,
    key: i64,
    detail: String,
    later: Result<(), String>,
    outcome: JobOutcome,
)
    requires
        pool.wf(),
        pool.reporting(key),
    ensures
        pool.settle_error(key, Err(detail)) matches Some(error) && error.reported_key() == Some(
            key,
        ),
        !pool.settle(key).holds(key),
        pool.settle(key).settle_error(key, later) is None,
        pool.settle(key).settle(key) == pool.settle(key),
        pool.settle(key).finish(key, outcome) == pool.settle(key),
{
    lemma_settle_stage(pool, key, key);
    lemma_settle_wf(pool, key);
}

} // verus!
