//! The executable dispatch pool. Its view is a [`PoolState`], and every
//! operation is specified as the matching transition of that state.

use crate::error::Error;
use crate::error::RemoteCall;
use crate::job::FaultPolicy;
use crate::job::Job;
use crate::job::JobOutcome;
use crate::job::ReportCall;
use crate::pool_state::PoolState;
use crate::pool_state::lemma_finish_wf;
use crate::pool_state::lemma_offer_wf;
use crate::pool_state::lemma_settle_wf;
use crate::pool_state::lemma_submit_wf;
use crate::reporter::Phase;
use crate::reporter::decide_report;
use crate::reporter::reports;
use std::collections::HashMap;
use vstd::prelude::*;

verus! {

/// What became of a batch handed to the pool.
#[derive(Debug)]
pub struct Admitted {
    /// The jobs whose handlers are to be started now.
    pub run: Vec<Job>,
    /// The jobs refused because their key is already held.
    pub refused: Vec<Job>,
}

/// What the end of a handler asks for.
#[derive(Debug)]
pub struct Completion {
    /// The remote call to make for the job, if one is owed.
    pub report: Option<ReportCall>,
    /// The waiting job that took the freed slot, to be started now.
    pub run: Option<Job>,
}

/// What the return of a report asks for.
#[derive(Debug)]
pub struct Settlement {
    /// The failure to surface, if the report failed.
    pub error: Option<Error>,
    /// The waiting job that took the freed slot, to be started now.
    pub run: Option<Job>,
}

/// The executable dispatch pool.
#[derive(Debug)]
pub struct DispatchPool {
    capacity: usize,
    policy: FaultPolicy,
    active: HashMap<i64, Phase>,
    pending: Vec<Job>,
}

impl View for DispatchPool {
    type V = PoolState;

    closed spec fn view(&self) -> PoolState {
        PoolState {
            capacity: self.capacity as nat,
            policy: self.policy,
            active: self.active@,
            pending: self.pending@,
        }
    }
}

impl DispatchPool {
    /// The pool satisfies its invariant.
    pub open spec fn wf(&self) -> bool {
        self@.wf()
    }

    /// An empty pool of `capacity` slots.
    pub fn new(capacity: usize, policy: FaultPolicy) -> (pool: DispatchPool)
        requires
            capacity > 0,
        ensures
            pool@ == PoolState::empty(capacity as nat, policy),
            pool.wf(),
    {
        DispatchPool { capacity, policy, active: HashMap::new(), pending: Vec::new() }
    }

    /// The number of slots.
    pub fn capacity(&self) -> (n: usize)
        ensures
            n == self@.capacity,
    {
        self.capacity
    }

    /// The number of occupied slots.
    pub fn in_flight(&self) -> (n: usize)
        ensures
            n == self@.in_flight(),
    {
        self.active.len()
    }

    /// The number of jobs that wait for a slot.
    pub fn waiting(&self) -> (n: usize)
        ensures
            n == self@.pending.len(),
    {
        self.pending.len()
    }

    /// How many more jobs the pool can take without queueing any.
    pub fn spare_capacity(&self) -> (n: usize)
        requires
            self.wf(),
        ensures
            n == self@.spare_capacity(),
    {
        if self.pending.len() > 0 {
            0
        } else {
            self.capacity - self.active.len()
        }
    }

    /// No slot is occupied and no job waits.
    pub fn is_idle(&self) -> (idle: bool)
        ensures
            idle == self@.idle(),
    {
        self.active.is_empty() && self.pending.len() == 0
    }

    /// The phase of the slot that `key` occupies, if it occupies one.
    pub fn phase(&self, key: i64) -> (phase: Option<Phase>)
        ensures
            phase == if self@.active.contains_key(key) {
                Some(self@.active[key])
            } else {
                None
            },
    {
        match self.active.get(&key) {
            Some(phase) => Some(*phase),
            None => None,
        }
    }

    /// A job with this key waits in the queue.
    pub fn is_queued(&self, key: i64) -> (found: bool)
        ensures
            found == self@.queued(key),
    {
        let mut i: usize = 0;
        while i < self.pending.len()
            invariant
                i <= self.pending@.len(),
                forall|j: int| 0 <= j < i ==> (#[trigger] self.pending@[j]).key != key,
            decreases self.pending@.len() - i,
        {
            if self.pending[i].key == key {
                assert(self@.pending[i as int].key == key);
                return true;
            }
            i += 1;
        }
        false
    }

    /// The pool holds a lease with this key, in a slot or in the queue.
    pub fn holds(&self, key: i64) -> (held: bool)
        ensures
            held == self@.holds(key),
    {
        self.active.contains_key(&key) || self.is_queued(key)
    }

    /// Hands a batch of leased jobs to the pool, in order. A job whose key
    /// the pool already holds is refused; a job that finds a free slot is
    /// to be started now; every other job waits in the queue.
    pub fn submit(&mut self, batch: Vec<Job>) -> (out: Admitted)
        requires
            old(self).wf(),
        ensures
            final(self)@ == old(self)@.submit(batch@),
            out.run@ == old(self)@.started(batch@),
            out.refused@ == old(self)@.refused(batch@),
            final(self).wf(),
    {
        let ghost before = self@;
        let ghost all = batch@;
        let mut run: Vec<Job> = Vec::new();
        let mut refused: Vec<Job> = Vec::new();
        let mut batch = batch;
        let mut taken: usize = 0;
        let total: usize = batch.len();
        proof {
            assert(all.take(0) =~= Seq::<Job>::empty());
        }
        while batch.len() > 0
            invariant
                before.wf(),
                taken + batch@.len() == total,
                total == all.len(),
                batch@ =~= all.skip(taken as int),
                self@ == before.submit(all.take(taken as int)),
                run@ == before.started(all.take(taken as int)),
                refused@ == before.refused(all.take(taken as int)),
            decreases batch@.len(),
        {
            let job = batch.remove(0);
            proof {
                let done = all.take(taken as int);
                let next = all.take(taken + 1);
                assert(job == all[taken as int]);
                assert(next.drop_last() =~= done);
                assert(next.last() == job);
                lemma_submit_wf(before, done);
                lemma_offer_wf(self@, job);
            }
            if self.holds(job.key) {
                refused.push(job);
            } else if self.active.len() < self.capacity {
                self.active.insert(job.key, Phase::Running);
                run.push(job);
            } else {
                self.pending.push(job);
            }
            taken += 1;
        }
        proof {
            assert(all.take(taken as int) =~= all);
            lemma_submit_wf(before, all);
        }
        Admitted { run, refused }
    }

    /// Lets the oldest waiting job take a free slot, if there is one of each.
    fn promote(&mut self) -> (next: Option<Job>)
        requires
            old(self)@.active.dom().finite(),
            old(self)@.in_flight() <= old(self)@.capacity,
        ensures
            final(self)@ == old(self)@.promote(),
            next == old(self)@.promoted(),
    {
        if self.pending.len() > 0 && self.active.len() < self.capacity {
            let job = self.pending.remove(0);
            assert(self.pending@ =~= old(self).pending@.drop_first());
            self.active.insert(job.key, Phase::Running);
            Some(job)
        } else {
            None
        }
    }

    /// Records that the handler of `key` ended with `outcome`. For a job
    /// that is running, the result names the one remote call owed for it,
    /// or none where the job is dropped; a dropped job frees its slot at
    /// once. For any other key nothing changes and nothing is asked for.
    pub fn finish(&mut self, key: i64, outcome: JobOutcome) -> (out: Completion)
        requires
            old(self).wf(),
        ensures
            final(self)@ == old(self)@.finish(key, outcome),
            final(self).wf(),
            old(self)@.running(key) ==> reports(out.report, key, outcome, old(self)@.policy),
            !old(self)@.running(key) ==> out.report is None,
            out.run == old(self)@.finish_promoted(key, outcome),
    {
        proof {
            lemma_finish_wf(self@, key, outcome);
        }
        let running = match self.active.get(&key) {
            Some(phase) => match phase {
                Phase::Running => true,
                _ => false,
            },
            None => false,
        };
        if !running {
            return Completion { report: None, run: None };
        }
        let report = decide_report(key, outcome, self.policy);
        match &report {
            Some(ReportCall::CompleteJob { .. }) => {
                self.active.insert(key, Phase::Completing);
                Completion { report, run: None }
            },
            Some(ReportCall::FailJob { .. }) => {
                self.active.insert(key, Phase::Failing);
                Completion { report, run: None }
            },
            None => {
                self.active.remove(&key);
                let run = self.promote();
                Completion { report, run }
            },
        }
    }

    /// Records that the report for `key` returned `result`. For a job whose
    /// report is in flight, the slot is freed whatever the result, and a
    /// failed report is surfaced as an error that names the job and the
    /// call; the report is never repeated. For any other key nothing
    /// changes and nothing is surfaced.
    pub fn settle(&mut self, key: i64, result: Result<(), String>) -> (out: Settlement)
        requires
            old(self).wf(),
        ensures
            final(self)@ == old(self)@.settle(key),
            final(self).wf(),
            out.error == old(self)@.settle_error(key, result),
            out.run == old(self)@.settle_promoted(key),
    {
        proof {
            lemma_settle_wf(self@, key);
        }
        let phase = match self.active.get(&key) {
            Some(phase) => *phase,
            None => Phase::Running,
        };
        match phase {
            Phase::Running => Settlement { error: None, run: None },
            Phase::Completing => {
                self.active.remove(&key);
                let run = self.promote();
                let error = match result {
                    Ok(_) => None,
                    Err(detail) => Some(Error::of_failed(RemoteCall::CompleteJob(key), detail)),
                };
                Settlement { error, run }
            },
            Phase::Failing => {
                self.active.remove(&key);
                let run = self.promote();
                let error = match result {
                    Ok(_) => None,
                    Err(detail) => Some(Error::of_failed(RemoteCall::FailJob(key), detail)),
                };
                Settlement { error, run }
            },
        }
    }

    /// Gives up the jobs that wait for a slot and hands them back, oldest
    /// first. Their handlers never start; their leases expire.
    pub fn release_pending(&mut self) -> (released: Vec<Job>)
        requires
            old(self).wf(),
        ensures
            final(self)@ == old(self)@.release_pending(),
            released@ == old(self)@.pending,
            final(self).wf(),
    {
        let mut released: Vec<Job> = Vec::new();
        released.append(&mut self.pending);
        released
    }

    /// Gives up every lease the pool holds and tells how many slots were
    /// occupied. No call is made for any of them; their leases expire.
    pub fn abandon(&mut self) -> (lost: usize)
        requires
            old(self).wf(),
        ensures
            final(self)@ == old(self)@.abandon(),
            lost == old(self)@.in_flight(),
            final(self).wf(),
    {
        let lost = self.active.len();
        self.active.clear();
        self.pending.clear();
        lost
    }
}

} // verus!
