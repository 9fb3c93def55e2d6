//! The dispatch pool as a mathematical value: a bounded set of slots, one
//! per job whose handler is running or whose report is in flight, and a
//! queue of leased jobs that wait for a slot. The transitions of the pool
//! are functions of this value, and the lemmas of this file say what they
//! preserve.

use crate::error::Error;
use crate::job::FaultPolicy;
use crate::job::Job;
use crate::job::JobOutcome;
use crate::reporter::Phase;
use crate::reporter::report_phase;
use vstd::prelude::*;

verus! {

/// What the pool does with a newly leased job.
pub enum Admission {
    /// A slot is free: the handler starts now.
    Started,
    /// Every slot is taken: the job waits in the queue.
    Queued,
    /// The pool already holds a lease with this key: the job is refused.
    Duplicate,
}

/// The pool as a mathematical value.
pub struct PoolState {
    /// The number of slots.
    pub capacity: nat,
    /// What happens to a job whose handler terminated abnormally.
    pub policy: FaultPolicy,
    /// The occupied slots, by job key.
    pub active: Map<i64, Phase>,
    /// The jobs that wait for a slot, oldest first.
    pub pending: Seq<Job>,
}

impl PoolState {
    /// An empty pool of `capacity` slots.
    pub open spec fn empty(capacity: nat, policy: FaultPolicy) -> PoolState {
        PoolState { capacity, policy, active: Map::empty(), pending: Seq::empty() }
    }

    /// A job with this key waits in the queue.
    pub open spec fn queued(self, key: i64) -> bool {
        exists|i: int| 0 <= i < self.pending.len() && (#[trigger] self.pending[i]).key == key
    }

    /// The pool holds a lease with this key, in a slot or in the queue.
    pub open spec fn holds(self, key: i64) -> bool {
        self.active.contains_key(key) || self.queued(key)
    }

    /// The number of occupied slots.
    pub open spec fn in_flight(self) -> nat {
        self.active.len()
    }

    /// How many more jobs the pool can take without queueing any.
    pub open spec fn spare_capacity(self) -> nat {
        let held = self.in_flight() + self.pending.len();
        if held >= self.capacity {
            0
        } else {
            (self.capacity - held) as nat
        }
    }

    /// The pool is drained: no slot is occupied and no job waits.
    pub open spec fn idle(self) -> bool {
        self.active.is_empty() && self.pending.len() == 0
    }

    /// The invariant of the pool: never more occupied slots than capacity,
    /// no job waits while a slot is free, and no key is held twice.
    pub open spec fn wf(self) -> bool {
        &&& self.capacity > 0
        &&& self.active.dom().finite()
        &&& self.in_flight() <= self.capacity
        &&& self.pending.len() > 0 ==> self.in_flight() == self.capacity
        &&& forall|i: int|
            0 <= i < self.pending.len() ==> !self.active.contains_key(
                (#[trigger] self.pending[i]).key,
            )
        &&& forall|i: int, j: int|
            0 <= i < j < self.pending.len() ==> (#[trigger] self.pending[i]).key != (
            #[trigger] self.pending[j]).key
    }

    /// What happens to `job` when it is handed to the pool.
    pub open spec fn admission(self, job: Job) -> Admission {
        if self.holds(job.key) {
            Admission::Duplicate
        } else if self.in_flight() < self.capacity {
            Admission::Started
        } else {
            Admission::Queued
        }
    }

    /// The pool after `job` was handed to it.
    pub open spec fn offer(self, job: Job) -> PoolState {
        match self.admission(job) {
            Admission::Duplicate => self,
            Admission::Started => PoolState {
                active: self.active.insert(job.key, Phase::Running),
                ..self
            },
            Admission::Queued => PoolState { pending: self.pending.push(job), ..self },
        }
    }

    /// The pool after the jobs of `batch` were handed to it in order.
    pub open spec fn submit(self, batch: Seq<Job>) -> PoolState
        decreases batch.len(),
    {
        if batch.len() == 0 {
            self
        } else {
            self.submit(batch.drop_last()).offer(batch.last())
        }
    }

    /// The jobs of `batch` whose admission is `kind`, in their order.
    pub open spec fn with_admission(self, batch: Seq<Job>, kind: Admission) -> Seq<Job>
        decreases batch.len(),
    {
        if batch.len() == 0 {
            Seq::empty()
        } else {
            let earlier = self.with_admission(batch.drop_last(), kind);
            if self.submit(batch.drop_last()).admission(batch.last()) == kind {
                earlier.push(batch.last())
            } else {
                earlier
            }
        }
    }

    /// The jobs of `batch` whose handlers start at once.
    pub open spec fn started(self, batch: Seq<Job>) -> Seq<Job> {
        self.with_admission(batch, Admission::Started)
    }

    /// The jobs of `batch` that are refused as duplicates.
    pub open spec fn refused(self, batch: Seq<Job>) -> Seq<Job> {
        self.with_admission(batch, Admission::Duplicate)
    }

    /// A slot is free and a job waits for it.
    pub open spec fn can_promote(self) -> bool {
        self.pending.len() > 0 && self.in_flight() < self.capacity
    }

    /// The job that takes the next free slot, if one waits and a slot is free.
    pub open spec fn promoted(self) -> Option<Job> {
        if self.can_promote() {
            Some(self.pending[0])
        } else {
            None
        }
    }

    /// The job `key` is the one that takes the next free slot.
    pub open spec fn promotes(self, key: i64) -> bool {
        self.promoted() matches Some(job) && job.key == key
    }

    /// The pool after the oldest waiting job took a free slot.
    pub open spec fn promote(self) -> PoolState {
        if self.can_promote() {
            PoolState {
                active: self.active.insert(self.pending[0].key, Phase::Running),
                pending: self.pending.drop_first(),
                ..self
            }
        } else {
            self
        }
    }

    /// The pool after the slot of `key` was given up.
    pub open spec fn vacate(self, key: i64) -> PoolState {
        PoolState { active: self.active.remove(key), ..self }
    }

    /// The handler of `key` is executing.
    pub open spec fn running(self, key: i64) -> bool {
        self.active.contains_key(key) && self.active[key] == Phase::Running
    }

    /// A report for `key` is in flight.
    pub open spec fn reporting(self, key: i64) -> bool {
        self.active.contains_key(key) && self.active[key] != Phase::Running
    }

    /// The pool after the handler of `key` ended with `outcome`. Where a
    /// call is owed the slot stays taken until the call returns; where the
    /// job is dropped the slot goes to the oldest waiting job. An outcome
    /// for a job that is not running changes nothing.
    pub open spec fn finish(self, key: i64, outcome: JobOutcome) -> PoolState {
        if self.running(key) {
            match report_phase(outcome, self.policy) {
                Some(phase) => PoolState { active: self.active.insert(key, phase), ..self },
                None => self.vacate(key).promote(),
            }
        } else {
            self
        }
    }

    /// The job that starts when the handler of `key` ends with `outcome`.
    pub open spec fn finish_promoted(self, key: i64, outcome: JobOutcome) -> Option<Job> {
        if self.running(key) && report_phase(outcome, self.policy) is None {
            self.vacate(key).promoted()
        } else {
            None
        }
    }

    /// The pool after the report for `key` returned, with whatever result:
    /// the slot goes to the oldest waiting job. A result for a job with no
    /// report in flight changes nothing.
    pub open spec fn settle(self, key: i64) -> PoolState {
        if self.reporting(key) {
            self.vacate(key).promote()
        } else {
            self
        }
    }

    /// The job that starts when the report for `key` returns.
    pub open spec fn settle_promoted(self, key: i64) -> Option<Job> {
        if self.reporting(key) {
            self.vacate(key).promoted()
        } else {
            None
        }
    }

    /// The error to surface when the report for `key` returned `result`.
    pub open spec fn settle_error(self, key: i64, result: Result<(), String>) -> Option<Error> {
        if self.reporting(key) {
            match result {
                Ok(_) => None,
                Err(detail) => if self.active[key] == Phase::Completing {
                    Some(Error::CompleteJobError(key, detail))
                } else {
                    Some(Error::FailJobError(key, detail))
                },
            }
        } else {
            None
        }
    }

    /// How far the lease of `key` is from its end: 3 while it waits for a
    /// slot, 2 while its handler runs, 1 while its report is in flight,
    /// and 0 when the pool does not hold it.
    pub open spec fn stage(self, key: i64) -> nat {
        if self.active.contains_key(key) {
            if self.active[key] == Phase::Running {
                2
            } else {
                1
            }
        } else if self.queued(key) {
            3
        } else {
            0
        }
    }

    /// The pool after the waiting jobs were given up.
    pub open spec fn release_pending(self) -> PoolState {
        PoolState { pending: Seq::empty(), ..self }
    }

    /// The pool after every lease was given up.
    pub open spec fn abandon(self) -> PoolState {
        PoolState { active: Map::empty(), pending: Seq::empty(), ..self }
    }
}

/// Handing a job to a well-formed pool leaves it well-formed.
pub proof fn lemma_offer_wf(pool: PoolState, job: Job)
    requires
        pool.wf(),
    ensures
        pool.offer(job).wf(),
        pool.offer(job).capacity == pool.capacity,
        pool.offer(job).policy == pool.policy,
{
    let after = pool.offer(job);
    match pool.admission(job) {
        Admission::Duplicate => {},
        Admission::Started => {
            assert(!pool.active.contains_key(job.key));
            assert(pool.pending.len() == 0);
        },
        Admission::Queued => {
            assert(!pool.queued(job.key));
            assert forall|i: int, j: int| 0 <= i < j < after.pending.len() implies (
            #[trigger] after.pending[i]).key != (#[trigger] after.pending[j]).key by {
                if j == pool.pending.len() {
                    assert(pool.pending[i].key != job.key);
                }
            }
        },
    }
}

/// Handing a batch to a well-formed pool leaves it well-formed.
pub proof fn lemma_submit_wf(pool: PoolState, batch: Seq<Job>)
    requires
        pool.wf(),
    ensures
        pool.submit(batch).wf(),
        pool.submit(batch).capacity == pool.capacity,
        pool.submit(batch).policy == pool.policy,
    decreases batch.len(),
{
    if batch.len() > 0 {
        lemma_submit_wf(pool, batch.drop_last());
        lemma_offer_wf(pool.submit(batch.drop_last()), batch.last());
    }
}

/// Giving up an occupied slot and letting the oldest waiting job take it
/// leaves a well-formed pool well-formed.
pub proof fn lemma_vacate_promote_wf(pool: PoolState, key: i64)
    requires
        pool.wf(),
        pool.active.contains_key(key),
    ensures
        pool.vacate(key).promote().wf(),
        pool.vacate(key).promote().capacity == pool.capacity,
        pool.vacate(key).promote().policy == pool.policy,
        pool.vacate(key).promote().in_flight() <= pool.in_flight(),
{
    let freed = pool.vacate(key);
    let after = freed.promote();
    assert(freed.in_flight() == pool.in_flight() - 1);
    if freed.can_promote() {
        let next = pool.pending[0];
        assert(!pool.active.contains_key(next.key));
        assert(!freed.active.contains_key(next.key));
        assert(after.in_flight() == pool.in_flight());
        assert forall|i: int| 0 <= i < after.pending.len() implies !after.active.contains_key(
            (#[trigger] after.pending[i]).key,
        ) by {
            assert(after.pending[i] == pool.pending[i + 1]);
            assert(pool.pending[0].key != pool.pending[i + 1].key);
        }
        assert forall|i: int, j: int| 0 <= i < j < after.pending.len() implies (
        #[trigger] after.pending[i]).key != (#[trigger] after.pending[j]).key by {
            assert(after.pending[i] == pool.pending[i + 1]);
            assert(after.pending[j] == pool.pending[j + 1]);
        }
    } else {
        assert(pool.pending.len() == 0);
    }
}

/// The end of a handler leaves a well-formed pool well-formed, and never
/// raises the number of occupied slots.
pub proof fn lemma_finish_wf(pool: PoolState, key: i64, outcome: JobOutcome)
    requires
        pool.wf(),
    ensures
        pool.finish(key, outcome).wf(),
        pool.finish(key, outcome).capacity == pool.capacity,
        pool.finish(key, outcome).policy == pool.policy,
        pool.finish(key, outcome).in_flight() <= pool.in_flight(),
{
    if pool.running(key) {
        match report_phase(outcome, pool.policy) {
            Some(phase) => {
                assert(pool.active.insert(key, phase).dom() =~= pool.active.dom());
            },
            None => {
                lemma_vacate_promote_wf(pool, key);
            },
        }
    }
}

/// The return of a report leaves a well-formed pool well-formed, and never
/// raises the number of occupied slots.
pub proof fn lemma_settle_wf(pool: PoolState, key: i64)
    requires
        pool.wf(),
    ensures
        pool.settle(key).wf(),
        pool.settle(key).capacity == pool.capacity,
        pool.settle(key).policy == pool.policy,
        pool.settle(key).in_flight() <= pool.in_flight(),
{
    if pool.reporting(key) {
        lemma_vacate_promote_wf(pool, key);
    }
}

/// A batch raises the number of occupied slots by exactly the number of
/// handlers it starts, so it never starts more than there are free slots.
pub proof fn lemma_started_fill_free_slots(pool: PoolState, batch: Seq<Job>)
    requires
        pool.wf(),
    ensures
        pool.submit(batch).in_flight() == pool.in_flight() + pool.started(batch).len(),
        pool.in_flight() + pool.started(batch).len() <= pool.capacity,
    decreases batch.len(),
{
    lemma_submit_wf(pool, batch);
    if batch.len() > 0 {
        lemma_started_fill_free_slots(pool, batch.drop_last());
        lemma_submit_wf(pool, batch.drop_last());
        let before = pool.submit(batch.drop_last());
        if before.admission(batch.last()) is Started {
            assert(!before.active.contains_key(batch.last().key));
        }
    }
}

/// Handing a batch to the pool gives up no lease: what was held is held.
pub proof fn lemma_submit_keeps_leases(pool: PoolState, batch: Seq<Job>, key: i64)
    requires
        pool.holds(key),
    ensures
        pool.submit(batch).holds(key),
        pool.submit(batch).stage(key) == pool.stage(key),
    decreases batch.len(),
{
    if batch.len() > 0 {
        lemma_submit_keeps_leases(pool, batch.drop_last(), key);
        let before = pool.submit(batch.drop_last());
        let after = before.offer(batch.last());
        if before.queued(key) {
            let i = choose|i: int|
                0 <= i < before.pending.len() && (#[trigger] before.pending[i]).key == key;
            if before.admission(batch.last()) is Queued {
                assert(after.pending[i].key == key);
            }
        }
        if after.queued(key) && !before.queued(key) {
            let i = choose|i: int|
                0 <= i < after.pending.len() && (#[trigger] after.pending[i]).key == key;
            if i < before.pending.len() {
                assert(before.pending[i].key == key);
            }
        }
    }
}

/// The jobs that a batch starts were not held before, run afterwards, and
/// have pairwise different keys: no lease is started twice by one batch.
pub proof fn lemma_started_are_fresh(pool: PoolState, batch: Seq<Job>)
    requires
        pool.wf(),
    ensures
        forall|i: int|
            0 <= i < pool.started(batch).len() ==> !pool.holds(
                (#[trigger] pool.started(batch)[i]).key,
            ) && pool.submit(batch).running(pool.started(batch)[i].key),
        forall|i: int, j: int|
            0 <= i < j < pool.started(batch).len() ==> (#[trigger] pool.started(batch)[i]).key
                != (#[trigger] pool.started(batch)[j]).key,
    decreases batch.len(),
{
    if batch.len() > 0 {
        let earlier = batch.drop_last();
        let last = batch.last();
        lemma_started_are_fresh(pool, earlier);
        lemma_submit_wf(pool, earlier);
        let before = pool.submit(earlier);
        let now = pool.started(batch);
        let then = pool.started(earlier);
        if before.admission(last) is Started {
            assert(!before.holds(last.key));
            if pool.holds(last.key) {
                lemma_submit_keeps_leases(pool, earlier, last.key);
            }
            assert forall|i: int| 0 <= i < now.len() implies !pool.holds(
                (#[trigger] now[i]).key,
            ) && pool.submit(batch).running(now[i].key) by {
                if i < then.len() {
                    assert(now[i] == then[i]);
                    assert(before.running(then[i].key));
                }
            }
            assert forall|i: int, j: int| 0 <= i < j < now.len() implies (#[trigger] now[i]).key
                != (#[trigger] now[j]).key by {
                assert(now[i] == then[i]);
                assert(before.running(then[i].key));
                if j < then.len() {
                    assert(now[j] == then[j]);
                }
            }
        } else {
            assert(now == then);
            assert forall|i: int| 0 <= i < now.len() implies !pool.holds(
                (#[trigger] now[i]).key,
            ) && pool.submit(batch).running(now[i].key) by {
                assert(before.running(then[i].key));
            }
        }
    }
}

/// A job that runs after a batch and did not run before is one of the
/// jobs that the batch started.
pub proof fn lemma_running_by_batch(pool: PoolState, batch: Seq<Job>, key: i64)
    requires
        pool.submit(batch).running(key),
        !pool.running(key),
    ensures
        exists|i: int|
            0 <= i < pool.started(batch).len() && (#[trigger] pool.started(batch)[i]).key == key,
    decreases batch.len(),
{
    if batch.len() > 0 {
        let earlier = batch.drop_last();
        let before = pool.submit(earlier);
        if before.running(key) {
            lemma_running_by_batch(pool, earlier, key);
            let i = choose|i: int|
                0 <= i < pool.started(earlier).len() && (#[trigger] pool.started(earlier)[i]).key
                    == key;
            assert(pool.started(batch)[i] == pool.started(earlier)[i]);
        } else {
            assert(before.admission(batch.last()) is Started);
            assert(batch.last().key == key);
            assert(pool.started(batch)[pool.started(earlier).len() as int] == batch.last());
        }
    }
}

/// A job with this key is in the batch.
pub open spec fn mentions(batch: Seq<Job>, key: i64) -> bool {
    exists|i: int| 0 <= i < batch.len() && (#[trigger] batch[i]).key == key
}

/// A batch leaves every lease where it is whose key it does not mention.
pub proof fn lemma_submit_leaves_others(pool: PoolState, batch: Seq<Job>, key: i64)
    requires
        !mentions(batch, key),
    ensures
        pool.submit(batch).stage(key) == pool.stage(key),
    decreases batch.len(),
{
    if batch.len() > 0 {
        let earlier = batch.drop_last();
        let last = batch.last();
        assert(!mentions(earlier, key)) by {
            if mentions(earlier, key) {
                let i = choose|i: int| 0 <= i < earlier.len() && (#[trigger] earlier[i]).key == key;
                assert(batch[i].key == key);
            }
        }
        assert(last.key != key) by {
            assert(batch[batch.len() - 1] == last);
        }
        lemma_submit_leaves_others(pool, earlier, key);
        let before = pool.submit(earlier);
        let after = before.offer(last);
        if before.queued(key) {
            let i = choose|i: int|
                0 <= i < before.pending.len() && (#[trigger] before.pending[i]).key == key;
            if before.admission(last) is Queued {
                assert(after.pending[i].key == key);
            }
        }
        if after.queued(key) && !before.queued(key) {
            let i = choose|i: int|
                0 <= i < after.pending.len() && (#[trigger] after.pending[i]).key == key;
            if i < before.pending.len() {
                assert(before.pending[i].key == key);
            }
        }
    }
}

/// Every job of a batch is started, queued or refused: none is lost.
pub proof fn lemma_batch_is_accounted_for(pool: PoolState, batch: Seq<Job>)
    requires
        pool.wf(),
    ensures
        batch.len() == pool.started(batch).len() + pool.refused(batch).len() + (pool.submit(
            batch,
        ).pending.len() - pool.pending.len()),
        pool.submit(batch).pending.len() >= pool.pending.len(),
    decreases batch.len(),
{
    if batch.len() > 0 {
        lemma_batch_is_accounted_for(pool, batch.drop_last());
    }
}

/// When a slot is given up and the oldest waiting job takes it, no lease
/// moves away from its end, and the lease that held the slot is gone.
pub proof fn lemma_vacate_promote_stage(pool: PoolState, freed: i64, key: i64)
    requires
        pool.wf(),
        pool.active.contains_key(freed),
    ensures
        pool.vacate(freed).promote().stage(key) <= pool.stage(key),
        pool.vacate(freed).promote().stage(freed) == 0,
{
    let after = pool.vacate(freed).promote();
    assert forall|k: i64| after.queued(k) implies pool.queued(k) by {
        let i = choose|i: int|
            0 <= i < after.pending.len() && (#[trigger] after.pending[i]).key == k;
        if pool.vacate(freed).can_promote() {
            assert(pool.pending[i + 1].key == k);
        } else {
            assert(pool.pending[i].key == k);
        }
    }
    if pool.vacate(freed).can_promote() {
        let next = pool.pending[0];
        assert(pool.queued(next.key));
        assert(!pool.active.contains_key(next.key));
    }
    if pool.queued(freed) {
        let i = choose|i: int|
            0 <= i < pool.pending.len() && (#[trigger] pool.pending[i]).key == freed;
        assert(!pool.active.contains_key(pool.pending[i].key));
    }
    if pool.queued(key) && pool.active.contains_key(key) {
        let i = choose|i: int|
            0 <= i < pool.pending.len() && (#[trigger] pool.pending[i]).key == key;
        assert(!pool.active.contains_key(pool.pending[i].key));
    }
}

/// The job that takes a freed slot comes from the queue and runs afterwards.
pub proof fn lemma_promoted_from_queue(pool: PoolState, freed: i64)
    requires
        pool.wf(),
        pool.active.contains_key(freed),
    ensures
        pool.vacate(freed).promoted() matches Some(job) ==> pool.stage(job.key) == 3
            && pool.vacate(freed).promote().stage(job.key) == 2,
{
    if pool.vacate(freed).can_promote() {
        let next = pool.pending[0];
        assert(pool.queued(next.key));
        assert(!pool.active.contains_key(next.key));
    }
}

/// When a slot is given up, every other lease stays where it is, but for
/// the oldest waiting one, which may take the slot.
pub proof fn lemma_vacate_promote_keeps(pool: PoolState, freed: i64, key: i64)
    requires
        pool.wf(),
        pool.active.contains_key(freed),
        key != freed,
    ensures
        pool.vacate(freed).promote().stage(key) == pool.stage(key) || (pool.stage(key) == 3
            && pool.vacate(freed).promote().stage(key) == 2 && pool.vacate(freed).promotes(key)),
{
    let after = pool.vacate(freed).promote();
    lemma_vacate_promote_stage(pool, freed, key);
    if pool.vacate(freed).can_promote() {
        let next = pool.pending[0];
        assert(pool.queued(next.key));
        assert(!pool.active.contains_key(next.key));
        if pool.queued(key) && key != next.key {
            let i = choose|i: int|
                0 <= i < pool.pending.len() && (#[trigger] pool.pending[i]).key == key;
            assert(after.pending[i - 1].key == key);
            assert(!pool.active.contains_key(pool.pending[i].key));
        }
    } else if pool.queued(key) {
        let i = choose|i: int|
            0 <= i < pool.pending.len() && (#[trigger] pool.pending[i]).key == key;
        assert(!pool.active.contains_key(pool.pending[i].key));
    }
}

/// The end of a handler moves no lease away from its end. The lease whose
/// handler ended is no longer running afterwards.
pub proof fn lemma_finish_stage(pool: PoolState, finished: i64, outcome: JobOutcome, key: i64)
    requires
        pool.wf(),
    ensures
        pool.finish(finished, outcome).stage(key) <= pool.stage(key),
        !pool.finish(finished, outcome).running(finished),
        pool.running(finished) ==> pool.finish(finished, outcome).stage(finished) < 2,
{
    if pool.running(finished) {
        if report_phase(outcome, pool.policy) is None {
            lemma_vacate_promote_stage(pool, finished, key);
            lemma_vacate_promote_stage(pool, finished, finished);
        }
    }
}

/// The return of a report moves no lease away from its end. The lease
/// whose report returned is gone afterwards.
pub proof fn lemma_settle_stage(pool: PoolState, settled: i64, key: i64)
    requires
        pool.wf(),
    ensures
        pool.settle(settled).stage(key) <= pool.stage(key),
        pool.reporting(settled) ==> pool.settle(settled).stage(settled) == 0,
{
    if pool.reporting(settled) {
        lemma_vacate_promote_stage(pool, settled, key);
        lemma_vacate_promote_stage(pool, settled, settled);
    }
}

} // verus!
