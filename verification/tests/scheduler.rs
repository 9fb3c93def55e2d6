use zeebest::client::Client;
use zeebest::config::WorkerConfig;
use zeebest::error::ConfigProblem;
use zeebest::error::Error;
use zeebest::job::ActivationRequest;
use zeebest::job::Cadence;
use zeebest::job::FaultPolicy;
use zeebest::job::Job;
use zeebest::job::JobOutcome;
use zeebest::job::ReportCall;
use zeebest::poller::activation_request;
use zeebest::poller::collect;
use zeebest::protocol::Event;
use zeebest::protocol::Lifecycle;
use zeebest::protocol::PollSchedule;
use zeebest::scheduler::PollScheduler;

fn job(key: i64) -> Job {
    Job {
        key,
        job_type: "payment".to_string(),
        worker: "rusty".to_string(),
        retries: 1,
        deadline: 0,
        variables: "{}".to_string(),
    }
}

fn keys(jobs: &[Job]) -> Vec<i64> {
    jobs.iter().map(|job| job.key).collect()
}

fn config(max_concurrent_jobs: usize, on_handler_fault: FaultPolicy) -> WorkerConfig {
    WorkerConfig {
        job_type: "payment".to_string(),
        worker_name: "rusty".to_string(),
        max_concurrent_jobs,
        poll_interval: 250,
        job_timeout: 30_000,
        on_handler_fault,
    }
}

fn started(max_concurrent_jobs: usize, cadence: Cadence) -> PollScheduler {
    PollScheduler::new(config(max_concurrent_jobs, FaultPolicy::ReportAsFailure), cadence).unwrap()
}

fn done() -> JobOutcome {
    JobOutcome::Complete { updated_variables: None }
}

/// Polls, answers with `batch`, and confirms the dispatch.
fn activate(scheduler: &mut PollScheduler, batch: Vec<Job>) -> Vec<Job> {
    assert!(scheduler.poll().is_some());
    let out = scheduler.activated(Ok(batch));
    assert_eq!(out.error, None);
    scheduler.dispatched();
    out.run
}

#[test]
fn scheduler_starts_idle() {
    let scheduler = started(4, Cadence::Fixed);
    assert_eq!(scheduler.lifecycle(), Lifecycle::Idle);
    assert_eq!(scheduler.cadence(), Cadence::Fixed);
    assert_eq!(scheduler.in_flight(), 0);
    assert_eq!(scheduler.waiting(), 0);
    assert_eq!(scheduler.batch_size(), 4);
    assert_eq!(scheduler.config(), &config(4, FaultPolicy::ReportAsFailure));
    assert_eq!(scheduler.next_poll(), PollSchedule::After(250));
}

#[test]
fn invalid_options_never_start() {
    let zero = PollScheduler::new(config(0, FaultPolicy::ReportAsFailure), Cadence::Fixed);
    assert_eq!(zero.err(), Some(Error::ConfigurationError(ConfigProblem::ZeroConcurrency)));
    let mut nameless = config(2, FaultPolicy::ReportAsFailure);
    nameless.job_type = String::new();
    let empty = PollScheduler::new(nameless, Cadence::Reactive);
    assert_eq!(empty.err(), Some(Error::ConfigurationError(ConfigProblem::EmptyJobType)));
}

#[test]
fn worker_start_fills_in_its_name() {
    let client = Client::new("localhost", 26500).unwrap();
    let worker = client.worker("rusty");
    let scheduler = worker
        .start("payment".to_string(), 4, 250, 30_000, FaultPolicy::ReportAsFailure, Cadence::Fixed)
        .unwrap();
    assert_eq!(scheduler.config(), &config(4, FaultPolicy::ReportAsFailure));
    assert_eq!(scheduler.lifecycle(), Lifecycle::Idle);
    let options = worker.configure("t".to_string(), 1, 2, 3, FaultPolicy::DropAndLetLeaseExpire);
    assert_eq!(options.worker_name, "rusty");
    assert_eq!(options.job_type, "t");
    assert_eq!(options.max_concurrent_jobs, 1);
    assert_eq!(options.poll_interval, 2);
    assert_eq!(options.job_timeout, 3);
    assert_eq!(options.on_handler_fault, FaultPolicy::DropAndLetLeaseExpire);
}

#[test]
fn worker_start_refuses_invalid_options() {
    let worker = Client::new("localhost", 26500).unwrap().worker("rusty");
    let policy = FaultPolicy::ReportAsFailure;
    let zero = worker.start("payment".to_string(), 0, 1, 1, policy, Cadence::Fixed);
    assert_eq!(zero.err(), Some(Error::ConfigurationError(ConfigProblem::ZeroConcurrency)));
    let empty = worker.start(String::new(), 0, 1, 1, FaultPolicy::ReportAsFailure, Cadence::Fixed);
    assert_eq!(empty.err(), Some(Error::ConfigurationError(ConfigProblem::EmptyJobType)));
}

#[test]
fn poll_asks_for_spare_capacity() {
    let mut scheduler = started(4, Cadence::Fixed);
    let request = scheduler.poll();
    assert_eq!(
        request,
        Some(ActivationRequest {
            job_type: "payment".to_string(),
            worker_name: "rusty".to_string(),
            max_jobs_to_activate: 4,
            timeout: 30_000,
        })
    );
    assert_eq!(scheduler.lifecycle(), Lifecycle::Polling);
    let out = scheduler.activated(Ok(vec![job(1), job(2), job(3)]));
    assert_eq!(keys(&out.run), vec![1, 2, 3]);
    assert_eq!(scheduler.lifecycle(), Lifecycle::Dispatching);
    assert_eq!(scheduler.next_poll(), PollSchedule::AfterThisCycle);
    scheduler.dispatched();
    assert_eq!(scheduler.lifecycle(), Lifecycle::Idle);
    let second = scheduler.poll().unwrap();
    assert_eq!(second.max_jobs_to_activate, 1);
}

#[test]
fn no_second_activation_while_one_is_outstanding() {
    let mut scheduler = started(4, Cadence::Fixed);
    assert!(scheduler.poll().is_some());
    assert_eq!(scheduler.poll(), None);
    assert_eq!(scheduler.poll(), None);
    assert_eq!(scheduler.lifecycle(), Lifecycle::Polling);
    assert_eq!(scheduler.next_poll(), PollSchedule::AfterThisCycle);
}

#[test]
fn poll_with_full_pool_makes_no_call() {
    let mut scheduler = started(2, Cadence::Fixed);
    activate(&mut scheduler, vec![job(1), job(2)]);
    assert_eq!(scheduler.batch_size(), 0);
    for _ in 0..3 {
        assert_eq!(scheduler.poll(), None);
        assert_eq!(scheduler.lifecycle(), Lifecycle::Idle);
        assert_eq!(scheduler.in_flight(), 2);
    }
    let fx = scheduler.step(Event::PollDue);
    assert_eq!(fx.activate, None);
    assert!(fx.run.is_empty());
}

#[test]
fn five_jobs_two_at_a_time() {
    let mut scheduler = started(2, Cadence::Fixed);
    let first = activate(&mut scheduler, vec![job(1), job(2), job(3), job(4), job(5)]);
    assert_eq!(keys(&first), vec![1, 2]);
    assert_eq!(scheduler.in_flight(), 2);
    assert_eq!(scheduler.waiting(), 3);
    assert_eq!(scheduler.poll(), None);

    let mut running: Vec<i64> = keys(&first);
    let mut calls = 0;
    let mut order: Vec<i64> = running.clone();
    while let Some(key) = running.pop() {
        let completion = scheduler.handler_finished(key, done());
        assert!(completion.run.is_none());
        assert!(completion.report.is_some());
        calls += 1;
        assert!(scheduler.in_flight() <= 2);
        let settlement = scheduler.report_finished(key, Ok(()));
        if let Some(next) = settlement.run {
            order.push(next.key);
            running.push(next.key);
        }
        assert!(scheduler.in_flight() <= 2);
    }
    assert_eq!(calls, 5);
    order.sort();
    assert_eq!(order, vec![1, 2, 3, 4, 5]);
    assert_eq!(scheduler.in_flight(), 0);
    assert_eq!(scheduler.waiting(), 0);
    assert_eq!(scheduler.batch_size(), 2);
}

#[test]
fn empty_batch_on_fixed_cadence() {
    let mut scheduler = started(2, Cadence::Fixed);
    assert!(scheduler.poll().is_some());
    let out = scheduler.activated(Ok(Vec::new()));
    assert!(out.run.is_empty());
    assert!(out.released.is_empty());
    assert_eq!(out.error, None);
    assert_eq!(scheduler.lifecycle(), Lifecycle::Idle);
    assert_eq!(scheduler.in_flight(), 0);
    assert_eq!(scheduler.next_poll(), PollSchedule::After(250));
}

#[test]
fn empty_batch_on_reactive_cadence() {
    let mut scheduler = started(2, Cadence::Reactive);
    assert_eq!(scheduler.next_poll(), PollSchedule::Immediately);
    let fx = scheduler.step(Event::PollDue);
    assert!(fx.activate.is_some());
    let fx = scheduler.step(Event::Activated(Ok(Vec::new())));
    assert!(fx.run.is_empty());
    assert_eq!(fx.report, None);
    assert_eq!(fx.error, None);
    assert!(fx.released.is_empty());
    assert_eq!(scheduler.lifecycle(), Lifecycle::Idle);
    assert_eq!(scheduler.next_poll(), PollSchedule::Immediately);
}

#[test]
fn reactive_cadence_waits_for_capacity() {
    let mut scheduler = started(1, Cadence::Reactive);
    activate(&mut scheduler, vec![job(1)]);
    assert_eq!(scheduler.next_poll(), PollSchedule::WhenCapacityFrees);
    scheduler.handler_finished(1, done());
    assert_eq!(scheduler.next_poll(), PollSchedule::WhenCapacityFrees);
    scheduler.report_finished(1, Ok(()));
    assert_eq!(scheduler.next_poll(), PollSchedule::Immediately);
}

#[test]
fn failed_activation_is_surfaced_and_polling_goes_on() {
    let mut scheduler = started(2, Cadence::Fixed);
    assert!(scheduler.poll().is_some());
    let out = scheduler.activated(Err("unavailable".to_string()));
    assert_eq!(out.error, Some(Error::ActivateJobError("unavailable".to_string())));
    assert!(out.run.is_empty());
    assert!(out.released.is_empty());
    assert_eq!(scheduler.lifecycle(), Lifecycle::Idle);
    assert_eq!(scheduler.next_poll(), PollSchedule::After(250));
    assert_eq!(scheduler.poll().map(|request| request.max_jobs_to_activate), Some(2));
}

#[test]
fn batch_without_outstanding_activation_is_given_back() {
    let mut scheduler = started(2, Cadence::Fixed);
    let out = scheduler.activated(Ok(vec![job(1), job(2)]));
    assert!(out.run.is_empty());
    assert_eq!(keys(&out.released), vec![1, 2]);
    assert_eq!(scheduler.in_flight(), 0);
    assert_eq!(scheduler.lifecycle(), Lifecycle::Idle);
}

#[test]
fn duplicate_lease_in_batch_is_given_back() {
    let mut scheduler = started(3, Cadence::Fixed);
    activate(&mut scheduler, vec![job(1)]);
    assert!(scheduler.poll().is_some());
    let out = scheduler.activated(Ok(vec![job(1), job(2)]));
    assert_eq!(keys(&out.run), vec![2]);
    assert_eq!(keys(&out.released), vec![1]);
    assert_eq!(scheduler.in_flight(), 2);
}

#[test]
fn batch_of_duplicates_only_skips_dispatch() {
    let mut scheduler = started(3, Cadence::Fixed);
    activate(&mut scheduler, vec![job(1)]);
    assert!(scheduler.poll().is_some());
    let out = scheduler.activated(Ok(vec![job(1)]));
    assert!(out.run.is_empty());
    assert_eq!(scheduler.lifecycle(), Lifecycle::Idle);
}

#[test]
fn fault_with_report_as_failure() {
    let mut scheduler =
        PollScheduler::new(config(2, FaultPolicy::ReportAsFailure), Cadence::Fixed).unwrap();
    activate(&mut scheduler, vec![job(1)]);
    let fx = scheduler.step(Event::HandlerFinished(1, JobOutcome::Unhandled));
    match fx.report {
        Some(ReportCall::FailJob { job_key, error_message }) => {
            assert_eq!(job_key, 1);
            assert!(!error_message.is_empty());
        }
        other => panic!("expected one failure call, got {:?}", other),
    }
    let again = scheduler.step(Event::HandlerFinished(1, JobOutcome::Unhandled));
    assert_eq!(again.report, None);
    assert_eq!(scheduler.in_flight(), 1);
}

#[test]
fn fault_with_drop_and_let_lease_expire() {
    let mut scheduler =
        PollScheduler::new(config(2, FaultPolicy::DropAndLetLeaseExpire), Cadence::Fixed).unwrap();
    activate(&mut scheduler, vec![job(1), job(2)]);
    let fx = scheduler.step(Event::HandlerFinished(1, JobOutcome::Unhandled));
    assert_eq!(fx.report, None);
    assert_eq!(fx.error, None);
    assert!(fx.run.is_empty());
    assert_eq!(scheduler.in_flight(), 1);
    let other = scheduler.handler_finished(2, done());
    assert_eq!(other.report, Some(ReportCall::CompleteJob { job_key: 2, updated_variables: None }));
}

#[test]
fn cancel_with_three_jobs_in_flight() {
    let mut scheduler = started(3, Cadence::Fixed);
    activate(&mut scheduler, vec![job(1), job(2), job(3)]);
    let released = scheduler.stop();
    assert!(released.is_empty());
    assert_eq!(scheduler.lifecycle(), Lifecycle::Stopping);
    assert_eq!(scheduler.in_flight(), 3);
    assert_eq!(scheduler.next_poll(), PollSchedule::Never);
    assert_eq!(scheduler.poll(), None);

    let mut calls: Vec<ReportCall> = Vec::new();
    let first = scheduler.handler_finished(1, done());
    calls.push(first.report.unwrap());
    assert_eq!(scheduler.poll(), None);
    let second =
        scheduler.handler_finished(2, JobOutcome::Fail { error_message: "declined".to_string() });
    calls.push(second.report.unwrap());
    let third = scheduler.handler_finished(3, JobOutcome::Unhandled);
    calls.push(third.report.unwrap());
    assert_eq!(scheduler.lifecycle(), Lifecycle::Stopping);

    scheduler.report_finished(1, Ok(()));
    scheduler.report_finished(2, Ok(()));
    assert_eq!(scheduler.lifecycle(), Lifecycle::Stopping);
    assert_eq!(scheduler.poll(), None);
    scheduler.report_finished(3, Ok(()));
    assert_eq!(scheduler.lifecycle(), Lifecycle::Stopped);
    assert_eq!(scheduler.in_flight(), 0);

    assert_eq!(calls.iter().map(|call| call.job_key()).collect::<Vec<i64>>(), vec![1, 2, 3]);
    assert_eq!(scheduler.poll(), None);
    assert_eq!(scheduler.next_poll(), PollSchedule::Never);
}

#[test]
fn cancel_when_idle_stops_at_once() {
    let mut scheduler = started(2, Cadence::Reactive);
    assert!(scheduler.stop().is_empty());
    assert_eq!(scheduler.lifecycle(), Lifecycle::Stopped);
    assert!(scheduler.stop().is_empty());
    assert_eq!(scheduler.lifecycle(), Lifecycle::Stopped);
    assert_eq!(scheduler.poll(), None);
}

#[test]
fn cancel_releases_waiting_jobs() {
    let mut scheduler = started(1, Cadence::Fixed);
    activate(&mut scheduler, vec![job(1), job(2), job(3)]);
    let released = scheduler.stop();
    assert_eq!(keys(&released), vec![2, 3]);
    assert_eq!(scheduler.waiting(), 0);
    assert_eq!(scheduler.lifecycle(), Lifecycle::Stopping);
    let completion = scheduler.handler_finished(1, done());
    assert!(completion.report.is_some());
    assert!(completion.run.is_none());
    let settlement = scheduler.report_finished(1, Ok(()));
    assert!(settlement.run.is_none());
    assert_eq!(scheduler.lifecycle(), Lifecycle::Stopped);
}

#[test]
fn cancel_while_activation_is_outstanding() {
    let mut scheduler = started(2, Cadence::Fixed);
    assert!(scheduler.poll().is_some());
    scheduler.stop();
    assert_eq!(scheduler.lifecycle(), Lifecycle::Stopped);
    let out = scheduler.activated(Ok(vec![job(1)]));
    assert!(out.run.is_empty());
    assert_eq!(keys(&out.released), vec![1]);
    assert_eq!(scheduler.in_flight(), 0);
    let failed = scheduler.activated(Err("late".to_string()));
    assert_eq!(failed.error, Some(Error::ActivateJobError("late".to_string())));
    assert_eq!(scheduler.lifecycle(), Lifecycle::Stopped);
}

#[test]
fn drain_timeout_gives_up_what_is_left() {
    let mut scheduler = started(3, Cadence::Fixed);
    activate(&mut scheduler, vec![job(1), job(2)]);
    assert_eq!(scheduler.drain_expired(), 0);
    assert_eq!(scheduler.lifecycle(), Lifecycle::Idle);
    scheduler.stop();
    scheduler.handler_finished(1, done());
    assert_eq!(scheduler.drain_expired(), 2);
    assert_eq!(scheduler.lifecycle(), Lifecycle::Stopped);
    assert_eq!(scheduler.in_flight(), 0);
    let late = scheduler.handler_finished(2, done());
    assert_eq!(late.report, None);
    let settled = scheduler.report_finished(1, Err("late".to_string()));
    assert_eq!(settled.error, None);
    assert_eq!(scheduler.drain_expired(), 0);
}

#[test]
fn failed_completion_call_is_not_retried() {
    let mut scheduler = started(2, Cadence::Fixed);
    activate(&mut scheduler, vec![job(41)]);
    let fx = scheduler.step(Event::HandlerFinished(41, done()));
    assert_eq!(fx.report, Some(ReportCall::CompleteJob { job_key: 41, updated_variables: None }));
    let fx = scheduler.step(Event::Reported(41, Err("broken pipe".to_string())));
    assert_eq!(fx.error, Some(Error::CompleteJobError(41, "broken pipe".to_string())));
    assert_eq!(fx.error.as_ref().and_then(|error| error.job_key()), Some(41));
    assert_eq!(fx.report, None);
    assert_eq!(scheduler.in_flight(), 0);

    let mut surfaced = 0;
    let mut reports = 0;
    for event in vec![
        Event::Reported(41, Err("broken pipe".to_string())),
        Event::HandlerFinished(41, done()),
        Event::PollDue,
        Event::Activated(Ok(Vec::new())),
        Event::Reported(41, Ok(())),
        Event::HandlerFinished(41, JobOutcome::Unhandled),
    ] {
        let fx = scheduler.step(event);
        if fx.error.is_some() {
            surfaced += 1;
        }
        if fx.report.is_some() {
            reports += 1;
        }
    }
    assert_eq!(surfaced, 0);
    assert_eq!(reports, 0);
}

#[test]
fn step_follows_the_single_events() {
    let mut scheduler = started(1, Cadence::Fixed);
    let fx = scheduler.step(Event::PollDue);
    assert_eq!(fx.activate.map(|request| request.max_jobs_to_activate), Some(1));
    let fx = scheduler.step(Event::Activated(Ok(vec![job(1), job(2)])));
    assert_eq!(keys(&fx.run), vec![1]);
    assert_eq!(scheduler.lifecycle(), Lifecycle::Dispatching);
    let fx = scheduler.step(Event::Dispatched);
    assert!(fx.run.is_empty() && fx.activate.is_none());
    assert_eq!(scheduler.lifecycle(), Lifecycle::Idle);
    let fx = scheduler.step(Event::HandlerFinished(
        1,
        JobOutcome::Fail { error_message: "declined".to_string() },
    ));
    assert_eq!(
        fx.report,
        Some(ReportCall::FailJob { job_key: 1, error_message: "declined".to_string() })
    );
    let fx = scheduler.step(Event::Reported(1, Err("timeout".to_string())));
    assert_eq!(fx.error, Some(Error::FailJobError(1, "timeout".to_string())));
    assert_eq!(keys(&fx.run), vec![2]);
    let fx = scheduler.step(Event::Cancel);
    assert!(fx.released.is_empty());
    assert_eq!(scheduler.lifecycle(), Lifecycle::Stopping);
    let fx = scheduler.step(Event::DrainExpired);
    assert_eq!(fx.abandoned, 1);
    assert_eq!(scheduler.lifecycle(), Lifecycle::Stopped);
}

#[test]
fn in_flight_stays_within_bound_over_many_cycles() {
    let mut scheduler =
        PollScheduler::new(config(3, FaultPolicy::DropAndLetLeaseExpire), Cadence::Reactive)
            .unwrap();
    let mut next_key: i64 = 1;
    let mut running: Vec<i64> = Vec::new();
    let mut reporting: Vec<i64> = Vec::new();
    for round in 0..60 {
        if let Some(request) = scheduler.poll() {
            assert!(request.max_jobs_to_activate <= 3 - scheduler.in_flight());
            let mut batch = Vec::new();
            for _ in 0..request.max_jobs_to_activate.min(1 + round % 3) {
                batch.push(job(next_key));
                next_key += 1;
            }
            let out = scheduler.activated(Ok(batch));
            running.extend(keys(&out.run));
            scheduler.dispatched();
        }
        assert!(scheduler.in_flight() <= 3);
        if round % 2 == 0 {
            if let Some(key) = running.pop() {
                let outcome = if round % 4 == 0 { JobOutcome::Unhandled } else { done() };
                let completion = scheduler.handler_finished(key, outcome);
                if completion.report.is_some() {
                    reporting.push(key);
                }
            }
        } else if let Some(key) = reporting.pop() {
            scheduler.report_finished(key, Ok(()));
        }
        assert!(scheduler.in_flight() <= 3);
        assert_eq!(scheduler.in_flight(), running.len() + reporting.len());
    }
}

#[test]
fn activation_request_copies_the_options() {
    let request = activation_request(&config(8, FaultPolicy::ReportAsFailure), 5);
    assert_eq!(request.job_type, "payment");
    assert_eq!(request.worker_name, "rusty");
    assert_eq!(request.max_jobs_to_activate, 5);
    assert_eq!(request.timeout, 30_000);
}

#[test]
fn collect_maps_transport_failure() {
    assert_eq!(collect(Ok(vec![job(1)])), Ok(vec![job(1)]));
    assert_eq!(collect(Ok(Vec::new())), Ok(Vec::new()));
    assert_eq!(
        collect(Err("deadline exceeded".to_string())),
        Err(Error::ActivateJobError("deadline exceeded".to_string()))
    );
}
