//! A worker: a name under which jobs are activated at one broker, and the
//! place where the options of its engine are checked.

use crate::client::Client;
use crate::config::WorkerConfig;
use crate::error::Error;
use crate::job::Cadence;
use crate::job::FaultPolicy;
use crate::scheduler::PollScheduler;
use crate::scheduler_state::SchedulerState;
use vstd::prelude::*;

verus! {

/// A named worker of a client. It does nothing until it is started.
#[derive(Debug, PartialEq, Eq)]
pub struct Worker {
    name: String,
    client: Client,
}

impl Worker {
    /// The name the worker identifies itself with.
    pub closed spec fn spec_name(&self) -> Seq<char> {
        self.name@
    }

    /// The client the worker belongs to.
    pub closed spec fn spec_client(&self) -> Client {
        self.client
    }

    /// The options of this worker for the given job type: the worker name
    /// is the worker's own, everything else is as given.
    pub open spec fn config_for(
        &self,
        config: WorkerConfig,
        job_type: String,
        max_concurrent_jobs: usize,
        poll_interval: u64,
        job_timeout: u64,
        on_handler_fault: FaultPolicy,
    ) -> bool {
        &&& config.job_type == job_type
        &&& config.worker_name@ == self.spec_name()
        &&& config.max_concurrent_jobs == max_concurrent_jobs
        &&& config.poll_interval == poll_interval
        &&& config.job_timeout == job_timeout
        &&& config.on_handler_fault == on_handler_fault
    }

    /// A worker of `client` that identifies itself as `name`.
    pub fn new(name: String, client: Client) -> (worker: Worker)
        ensures
            worker.spec_name() == name@,
            worker.spec_client() == client,
    {
        Worker { name, client }
    }

    /// The name the worker identifies itself with.
    pub fn name(&self) -> (name: &String)
        ensures
            name@ == self.spec_name(),
    {
        &self.name
    }

    /// The client the worker belongs to.
    pub fn client(&self) -> (client: &Client)
        ensures
            *client == self.spec_client(),
    {
        &self.client
    }

    /// The options of this worker for the given job type.
    pub fn configure(
        &self,
        job_type: String,
        max_concurrent_jobs: usize,
        poll_interval: u64,
        job_timeout: u64,
        on_handler_fault: FaultPolicy,
    ) -> (config: WorkerConfig)
        ensures
            self.config_for(
                config,
                job_type,
                max_concurrent_jobs,
                poll_interval,
                job_timeout,
                on_handler_fault,
            ),
    {
        WorkerConfig {
            job_type,
            worker_name: self.name.clone(),
            max_concurrent_jobs,
            poll_interval,
            job_timeout,
            on_handler_fault,
        }
    }

    /// Starts the worker for the given job type: checks the options and
    /// answers with its scheduler, idle and with an empty pool. Options
    /// that are not valid are refused and the worker never starts.
    pub fn start(
        &self,
        job_type: String,
        max_concurrent_jobs: usize,
        poll_interval: u64,
        job_timeout: u64,
        on_handler_fault: FaultPolicy,
        cadence: Cadence,
    ) -> (started: Result<PollScheduler, Error>)
        ensures
            match started {
                Ok(scheduler) => {
                    &&& job_type@.len() > 0
                    &&& max_concurrent_jobs > 0
                    &&& self.config_for(
                        scheduler@.config,
                        job_type,
                        max_concurrent_jobs,
                        poll_interval,
                        job_timeout,
                        on_handler_fault,
                    )
                    &&& scheduler@ == SchedulerState::start(scheduler@.config, cadence)
                    &&& scheduler.wf()
                },
                Err(error) => {
                    &&& job_type@.len() == 0 || max_concurrent_jobs == 0
                    &&& error == Error::ConfigurationError(
                        if job_type@.len() == 0 {
                            crate::error::ConfigProblem::EmptyJobType
                        } else {
                            crate::error::ConfigProblem::ZeroConcurrency
                        },
                    )
                },
            },
    {
        let config = self.configure(
            job_type,
            max_concurrent_jobs,
            poll_interval,
            job_timeout,
            on_handler_fault,
        );
        PollScheduler::new(config, cadence)
    }
}

} // verus!
