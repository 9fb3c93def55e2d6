//! The vocabulary between the scheduler and whoever drives it: the events
//! the scheduler is told, the effects it asks for, and the stations of its
//! lifecycle.

use crate::error::Error;
use crate::job::ActivationRequest;
use crate::job::Job;
use crate::job::JobOutcome;
use crate::job::ReportCall;
use vstd::prelude::*;

verus! {

/// Where the scheduler stands in its cycle.
#[derive(Clone, Copy, Debug, PartialEq, Eq, Structural)]
pub enum Lifecycle {
    /// Waiting for the next poll to fall due.
    Idle,
    /// An activation call is outstanding.
    Polling,
    /// A batch was handed over and its handlers are being started.
    Dispatching,
    /// Cancelled; waiting for the occupied slots to drain.
    Stopping,
    /// Cancelled and drained. Nothing happens any more.
    Stopped,
}

/// When the next poll falls due.
#[derive(Clone, Copy, Debug, PartialEq, Eq, Structural)]
pub enum PollSchedule {
    /// After this many milliseconds.
    After(u64),
    /// Now.
    Immediately,
    /// As soon as a slot of the pool is freed.
    WhenCapacityFrees,
    /// Once the poll cycle in progress has ended.
    AfterThisCycle,
    /// Never: the worker was cancelled.
    Never,
}

/// What the scheduler is told.
#[derive(Debug)]
pub enum Event {
    /// A poll has fallen due.
    PollDue,
    /// The activation call returned a batch, or failed.
    Activated(Result<Vec<Job>, String>),
    /// The handlers of the last batch have been started.
    Dispatched,
    /// The handler of the job with this key ended.
    HandlerFinished(i64, JobOutcome),
    /// The report for the job with this key returned.
    Reported(i64, Result<(), String>),
    /// The worker is cancelled.
    Cancel,
    /// The time allowed for draining has run out.
    DrainExpired,
}

/// What the scheduler asks for in answer to one event.
#[derive(Debug)]
pub struct Effects {
    /// The activation call to make.
    pub activate: Option<ActivationRequest>,
    /// The jobs whose handlers are to be started now.
    pub run: Vec<Job>,
    /// The remote call that closes a lease.
    pub report: Option<ReportCall>,
    /// The error to surface on the worker's error channel.
    pub error: Option<Error>,
    /// The leased jobs given back unprocessed; their leases expire.
    pub released: Vec<Job>,
    /// How many occupied slots were given up when draining ran out of time.
    pub abandoned: usize,
}

} // verus!
