//! The bounded worker pool: a fixed set of workers sharing one FIFO queue of
//! pending units of work.
//!
//! The pool here is the bookkeeping that sits behind the lock of a running
//! server: it decides which unit a free worker receives next and records which
//! workers are occupied. The threads themselves only call [`ThreadPool::take`]
//! when they are free and [`ThreadPool::finish`] when their unit has ended.

use std::collections::VecDeque;
use vstd::prelude::*;

verus! {

/// Number of occupied workers among `flags`.
pub open spec fn count_busy(flags: Seq<bool>) -> nat
    decreases flags.len(),
{
    if flags.len() == 0 {
        0
    } else {
        count_busy(flags.drop_last()) + if flags.last() { 1nat } else { 0nat }
    }
}

/// The mathematical state of a pool over units of type `J`.
pub ghost struct PoolModel<J> {
    /// One flag per worker, indexed by worker id: is it executing a unit?
    pub busy: Seq<bool>,
    /// Units waiting for a worker, oldest first.
    pub pending: Seq<J>,
    /// Every unit ever submitted, in submission order.
    pub submitted: Seq<J>,
    /// Every unit ever handed to a worker, in the order of handing out.
    pub started: Seq<J>,
    /// How many units have run to their end.
    pub finished: nat,
}

/// One thing that happens to a pool.
pub ghost enum PoolEvent<J> {
    /// A producer submits a unit.
    Submit(J),
    /// The worker with this id asks for a unit.
    Take(int),
    /// The unit on the worker with this id ends.
    Finish(int),
}

/// The units submitted in `events`, in order.
pub open spec fn submissions<J>(events: Seq<PoolEvent<J>>) -> Seq<J>
    decreases events.len(),
{
    if events.len() == 0 {
        Seq::empty()
    } else {
        match events.last() {
            PoolEvent::Submit(job) => submissions(events.drop_last()).push(job),
            _ => submissions(events.drop_last()),
        }
    }
}

impl<J> PoolModel<J> {
    /// The pool invariant: at least one worker; every submitted unit has
    /// either been handed out exactly once or still waits, in submission
    /// order; and the units in flight are exactly one per occupied worker.
    pub open spec fn wf(self) -> bool {
        &&& self.busy.len() > 0
        &&& self.submitted == self.started + self.pending
        &&& self.started.len() == self.finished + count_busy(self.busy)
    }

    /// A new pool of `n` idle workers with nothing submitted.
    pub open spec fn fresh(n: nat) -> Self {
        PoolModel {
            busy: Seq::new(n, |i: int| false),
            pending: Seq::empty(),
            submitted: Seq::empty(),
            started: Seq::empty(),
            finished: 0,
        }
    }

    /// Units currently executing.
    pub open spec fn in_flight(self) -> nat {
        count_busy(self.busy)
    }

    /// The work still ahead: each waiting unit must be taken and ended,
    /// each running unit must be ended.
    pub open spec fn work_left(self) -> nat {
        2 * self.pending.len() + count_busy(self.busy)
    }

    /// Nothing waits and nothing runs.
    pub open spec fn quiescent(self) -> bool {
        self.pending.len() == 0 && count_busy(self.busy) == 0
    }

    /// The state after `job` has been submitted.
    pub open spec fn submit(self, job: J) -> Self {
        PoolModel {
            pending: self.pending.push(job),
            submitted: self.submitted.push(job),
            ..self
        }
    }

    /// Worker `worker` exists, is idle, and a unit waits for it.
    pub open spec fn can_take(self, worker: int) -> bool {
        &&& 0 <= worker < self.busy.len()
        &&& !self.busy[worker]
        &&& self.pending.len() > 0
    }

    /// The state after worker `worker` has asked for a unit: it receives the
    /// oldest pending one if it may, and otherwise nothing changes.
    pub open spec fn take(self, worker: int) -> Self {
        if self.can_take(worker) {
            PoolModel {
                busy: self.busy.update(worker, true),
                pending: self.pending.drop_first(),
                started: self.started.push(self.pending.first()),
                ..self
            }
        } else {
            self
        }
    }

    /// The state after the unit on worker `worker` has ended, whether it
    /// succeeded or failed; an idle worker stays as it is.
    pub open spec fn finish(self, worker: int) -> Self {
        if 0 <= worker < self.busy.len() && self.busy[worker] {
            PoolModel {
                busy: self.busy.update(worker, false),
                finished: self.finished + 1,
                ..self
            }
        } else {
            self
        }
    }

    /// The state after one event.
    pub open spec fn step(self, event: PoolEvent<J>) -> Self {
        match event {
            PoolEvent::Submit(job) => self.submit(job),
            PoolEvent::Take(worker) => self.take(worker),
            PoolEvent::Finish(worker) => self.finish(worker),
        }
    }

    /// The state after a history of events, oldest first.
    pub open spec fn run(self, events: Seq<PoolEvent<J>>) -> Self
        decreases events.len(),
    {
        if events.len() == 0 {
            self
        } else {
            self.run(events.drop_last()).step(events.last())
        }
    }
}

/// The number of occupied workers never exceeds the number of workers.
pub proof fn lemma_count_busy_bounded(flags: Seq<bool>)
    ensures
        count_busy(flags) <= flags.len(),
    decreases flags.len(),
{
    if flags.len() > 0 {
        lemma_count_busy_bounded(flags.drop_last());
    }
}

/// Changing one worker's flag changes the count of occupied workers by that
/// worker alone.
pub proof fn lemma_count_busy_update(flags: Seq<bool>, worker: int, value: bool)
    requires
        0 <= worker < flags.len(),
    ensures
        count_busy(flags.update(worker, value)) + (if flags[worker] { 1nat } else { 0nat })
            == count_busy(flags) + (if value { 1nat } else { 0nat }),
    decreases flags.len(),
{
    let changed = flags.update(worker, value);
    if worker == flags.len() - 1 {
        assert(changed.drop_last() =~= flags.drop_last());
    } else {
        lemma_count_busy_update(flags.drop_last(), worker, value);
        assert(changed.drop_last() =~= flags.drop_last().update(worker, value));
    }
}

/// When no worker is occupied, every flag is false, and conversely.
pub proof fn lemma_count_busy_zero(flags: Seq<bool>)
    ensures
        count_busy(flags) == 0 <==> (forall|i: int| 0 <= i < flags.len() ==> !#[trigger] flags[i]),
    decreases flags.len(),
{
    if flags.len() > 0 {
        let init = flags.drop_last();
        lemma_count_busy_zero(init);
        if count_busy(flags) == 0 {
            assert forall|i: int| 0 <= i < flags.len() implies !#[trigger] flags[i] by {
                if i < flags.len() - 1 {
                    assert(init[i] == flags[i]);
                }
            }
        }
        if forall|i: int| 0 <= i < flags.len() ==> !#[trigger] flags[i] {
            assert forall|i: int| 0 <= i < init.len() implies !#[trigger] init[i] by {
                assert(init[i] == flags[i]);
            }
            assert(!flags[flags.len() - 1]);
        }
    }
}

/// A new pool has exactly `n` workers, all idle, and satisfies the invariant.
pub proof fn lemma_fresh_pool<J>(n: nat)
    requires
        n >= 1,
    ensures
        PoolModel::<J>::fresh(n).wf(),
        PoolModel::<J>::fresh(n).busy.len() == n,
        PoolModel::<J>::fresh(n).in_flight() == 0,
        PoolModel::<J>::fresh(n).quiescent(),
{
    let p = PoolModel::<J>::fresh(n);
    lemma_count_busy_zero(p.busy);
    assert(p.started + p.pending =~= p.submitted);
}

/// Submitting, taking and finishing each keep the pool invariant and never
/// change the number of workers.
pub proof fn lemma_steps_preserve_wf<J>(pool: PoolModel<J>, job: J, worker: int)
    requires
        pool.wf(),
    ensures
        pool.submit(job).wf(),
        pool.take(worker).wf(),
        pool.finish(worker).wf(),
        pool.submit(job).busy.len() == pool.busy.len(),
        pool.take(worker).busy.len() == pool.busy.len(),
        pool.finish(worker).busy.len() == pool.busy.len(),
{
    let s = pool.submit(job);
    assert(s.started + s.pending =~= s.submitted);
    if pool.can_take(worker) {
        let t = pool.take(worker);
        lemma_count_busy_update(pool.busy, worker, true);
        assert(t.started + t.pending =~= t.submitted);
    }
    if 0 <= worker < pool.busy.len() && pool.busy[worker] {
        lemma_count_busy_update(pool.busy, worker, false);
    }
}

/// No unit is skipped or duplicated: the units handed to workers so far,
/// followed by the units still waiting, are exactly the units submitted, in
/// submission order. When the pool is quiescent every submitted unit has
/// been handed out once and has run to its end.
pub proof fn lemma_every_unit_runs_once<J>(pool: PoolModel<J>)
    requires
        pool.wf(),
    ensures
        pool.started.len() + pool.pending.len() == pool.submitted.len(),
        forall|i: int| 0 <= i < pool.started.len() ==> pool.started[i] == pool.submitted[i],
        forall|i: int|
            0 <= i < pool.pending.len() ==> pool.pending[i] == pool.submitted[pool.started.len() + i],
        pool.quiescent() ==> pool.started == pool.submitted && pool.finished
            == pool.submitted.len(),
{
    if pool.quiescent() {
        assert(pool.started + pool.pending =~= pool.started);
    }
}

/// Whatever happens to a pool of `n` workers, in whatever order: it keeps
/// its `n` workers, never runs more than `n` units at once, and the units
/// handed to workers followed by the units still waiting are exactly the
/// units submitted, each once and in submission order. Once nothing waits
/// and nothing runs, every submitted unit has run to its end.
pub proof fn lemma_any_history<J>(n: nat, events: Seq<PoolEvent<J>>)
    requires
        n >= 1,
    ensures
        PoolModel::<J>::fresh(n).run(events).wf(),
        PoolModel::<J>::fresh(n).run(events).busy.len() == n,
        PoolModel::<J>::fresh(n).run(events).in_flight() <= n,
        PoolModel::<J>::fresh(n).run(events).submitted == submissions(events),
        PoolModel::<J>::fresh(n).run(events).started + PoolModel::<J>::fresh(n).run(
            events,
        ).pending == submissions(events),
        PoolModel::<J>::fresh(n).run(events).quiescent() ==> {
            &&& PoolModel::<J>::fresh(n).run(events).started == submissions(events)
            &&& PoolModel::<J>::fresh(n).run(events).finished == submissions(events).len()
        },
    decreases events.len(),
{
    let start = PoolModel::<J>::fresh(n);
    if events.len() == 0 {
        lemma_fresh_pool::<J>(n);
    } else {
        let before = start.run(events.drop_last());
        lemma_any_history::<J>(n, events.drop_last());
        match events.last() {
            PoolEvent::Submit(job) => lemma_steps_preserve_wf(before, job, 0),
            PoolEvent::Take(worker) => lemma_steps_preserve_wf(before, arbitrary(), worker),
            PoolEvent::Finish(worker) => lemma_steps_preserve_wf(before, arbitrary(), worker),
        }
    }
    let end = start.run(events);
    lemma_count_busy_bounded(end.busy);
    lemma_every_unit_runs_once(end);
}

/// A waiting unit is never stranded while a worker is free: the free worker
/// receives the oldest waiting unit, which leaves the queue.
pub proof fn lemma_free_worker_makes_progress<J>(pool: PoolModel<J>, worker: int)
    requires
        pool.wf(),
        0 <= worker < pool.busy.len(),
        !pool.busy[worker],
        pool.pending.len() > 0,
    ensures
        pool.take(worker).started == pool.started.push(pool.pending[0]),
        pool.take(worker).pending.len() == pool.pending.len() - 1,
        pool.take(worker).busy[worker],
{
}

/// The pool never gets stuck with work left: unless it is quiescent, some
/// worker can end its unit or take a waiting one, and either step leaves
/// less work ahead. So every submitted unit is executed in the end.
pub proof fn lemma_work_always_advances<J>(pool: PoolModel<J>)
    requires
        pool.wf(),
        !pool.quiescent(),
    ensures
        exists|worker: int|
            0 <= worker < pool.busy.len() && {
                ||| pool.busy[worker] && (#[trigger] pool.finish(worker)).work_left()
                    < pool.work_left()
                ||| pool.can_take(worker) && pool.take(worker).work_left() < pool.work_left()
            },
{
    if count_busy(pool.busy) > 0 {
        lemma_count_busy_zero(pool.busy);
        let worker = choose|i: int| 0 <= i < pool.busy.len() && pool.busy[i];
        lemma_count_busy_update(pool.busy, worker, false);
        assert(pool.finish(worker).work_left() < pool.work_left());
    } else {
        lemma_count_busy_zero(pool.busy);
        lemma_count_busy_update(pool.busy, 0, true);
        assert(pool.can_take(0));
        assert(pool.take(0).work_left() < pool.work_left());
        assert(pool.finish(0) == pool);
    }
}

/// A unit's end, successful or not, always returns its worker to the idle
/// state and touches no other unit: the queue and the other workers are
/// unchanged, and the worker then receives the next waiting unit.
pub proof fn lemma_worker_outlives_its_unit<J>(pool: PoolModel<J>, worker: int)
    requires
        pool.wf(),
        0 <= worker < pool.busy.len(),
        pool.busy[worker],
    ensures
        !pool.finish(worker).busy[worker],
        pool.finish(worker).pending == pool.pending,
        pool.finish(worker).submitted == pool.submitted,
        pool.finish(worker).started == pool.started,
        forall|other: int|
            0 <= other < pool.busy.len() && other != worker ==> pool.finish(worker).busy[other]
                == pool.busy[other],
        pool.pending.len() > 0 ==> pool.finish(worker).can_take(worker),
{
}

/// The concurrency ceiling: the units executing at any instant are the units
/// handed out and not yet ended, one per occupied worker, so never more than
/// the pool has workers; a busy worker is given nothing more until it
/// finishes.
pub proof fn lemma_concurrency_ceiling<J>(pool: PoolModel<J>, worker: int)
    requires
        pool.wf(),
    ensures
        pool.in_flight() == pool.started.len() - pool.finished,
        pool.in_flight() <= pool.busy.len(),
        0 <= worker < pool.busy.len() && pool.busy[worker] ==> pool.take(worker) == pool,
        pool.in_flight() == pool.busy.len() ==> pool.take(worker) == pool,
{
    lemma_count_busy_bounded(pool.busy);
    if pool.in_flight() == pool.busy.len() && 0 <= worker < pool.busy.len() && !pool.busy[worker] {
        lemma_count_busy_update(pool.busy, worker, true);
        lemma_count_busy_bounded(pool.busy.update(worker, true));
    }
}

/// One worker of the pool: its identifier and whether it is executing a unit.
#[derive(Clone, Copy, Debug)]
pub struct Worker {
    pub id: usize,
    pub busy: bool,
}

impl Worker {
    /// An idle worker with the identifier `id`.
    pub fn new(id: usize) -> (worker: Worker)
        ensures
            worker.id == id,
            !worker.busy,
    {
        Worker { id, busy: false }
    }
}

/// A pool with a fixed number of workers and one shared FIFO queue of pending
/// units of work.
pub struct ThreadPool<J> {
    workers: Vec<Worker>,
    queue: VecDeque<J>,
    submitted: Ghost<Seq<J>>,
    started: Ghost<Seq<J>>,
    finished: Ghost<nat>,
}

impl<J> View for ThreadPool<J> {
    type V = PoolModel<J>;

    closed spec fn view(&self) -> PoolModel<J> {
        PoolModel {
            busy: Seq::new(self.workers@.len(), |i: int| self.workers@[i].busy),
            pending: self.queue@,
            submitted: self.submitted@,
            started: self.started@,
            finished: self.finished@,
        }
    }
}

impl<J> ThreadPool<J> {
    /// Worker `i` carries the identifier `i`.
    pub closed spec fn ids_in_order(&self) -> bool {
        forall|i: int| 0 <= i < self.workers@.len() ==> (#[trigger] self.workers@[i]).id == i
    }

    /// The pool is consistent: its state satisfies the pool invariant and
    /// the workers are numbered by position.
    pub open spec fn wf(&self) -> bool {
        self@.wf() && self.ids_in_order()
    }

    /// Creates a pool of `num_threads` idle workers with an empty queue.
    pub fn new(num_threads: usize) -> (pool: ThreadPool<J>)
        requires
            num_threads > 0,
        ensures
            pool.wf(),
            pool@ == PoolModel::<J>::fresh(num_threads as nat),
            pool@.busy.len() == num_threads,
    {
        let mut workers: Vec<Worker> = Vec::with_capacity(num_threads);
        let mut id: usize = 0;
        while id < num_threads
            invariant
                id <= num_threads,
                workers@.len() == id,
                forall|i: int| 0 <= i < id ==> (#[trigger] workers@[i]).id == i && !workers@[i].busy,
            decreases num_threads - id,
        {
            workers.push(Worker::new(id));
            id = id + 1;
        }
        let pool = ThreadPool {
            workers,
            queue: VecDeque::new(),
            submitted: Ghost(Seq::empty()),
            started: Ghost(Seq::empty()),
            finished: Ghost(0),
        };
        proof {
            lemma_fresh_pool::<J>(num_threads as nat);
            assert(pool@.busy =~= PoolModel::<J>::fresh(num_threads as nat).busy);
        }
        pool
    }

    /// Queues `job` behind the units already waiting. Returns as soon as the
    /// unit is queued; no worker changes state.
    pub fn execute(&mut self, job: J)
        requires
            old(self).wf(),
        ensures
            final(self).wf(),
            final(self)@ == old(self)@.submit(job),
    {
        proof {
            lemma_steps_preserve_wf(self@, job, 0);
        }
        self.queue.push_back(job);
        self.submitted = Ghost(self.submitted@.push(job));
    }

    /// Queues `job` unless `limit` units already wait; a refused unit is
    /// handed back and the pool is unchanged.
    pub fn try_execute(&mut self, job: J, limit: usize) -> (refused: Result<(), J>)
        requires
            old(self).wf(),
        ensures
            final(self).wf(),
            old(self)@.pending.len() < limit ==> refused is Ok && final(self)@ == old(self)@.submit(
                job,
            ),
            old(self)@.pending.len() >= limit ==> refused == Err::<(), J>(job) && final(self)@
                == old(self)@,
    {
        if self.queue.len() < limit {
            self.execute(job);
            Ok(())
        } else {
            Err(job)
        }
    }

    /// The worker-side dequeue. An idle worker receives the oldest waiting
    /// unit and becomes busy; a busy worker, or any worker when nothing
    /// waits, receives nothing and the pool is unchanged.
    pub fn take(&mut self, worker: usize) -> (unit: Option<J>)
        requires
            old(self).wf(),
            worker < old(self)@.busy.len(),
        ensures
            final(self).wf(),
            final(self)@ == old(self)@.take(worker as int),
            old(self)@.can_take(worker as int) ==> unit == Some(old(self)@.pending[0]),
            !old(self)@.can_take(worker as int) ==> unit is None,
    {
        proof {
            lemma_steps_preserve_wf(self@, arbitrary(), worker as int);
        }
        if self.workers[worker].busy {
            return None;
        }
        let unit = self.queue.pop_front();
        match unit {
            Some(job) => {
                self.workers.set(worker, Worker { id: worker, busy: true });
                self.started = Ghost(self.started@.push(job));
                proof {
                    assert(self@.busy =~= old(self)@.busy.update(worker as int, true));
                    assert(self@.pending =~= old(self)@.pending.drop_first());
                }
                Some(job)
            },
            None => None,
        }
    }

    /// Records that the unit on `worker` has ended, whether it succeeded or
    /// failed: the worker is idle again. An idle worker stays as it is.
    pub fn finish(&mut self, worker: usize)
        requires
            old(self).wf(),
            worker < old(self)@.busy.len(),
        ensures
            final(self).wf(),
            final(self)@ == old(self)@.finish(worker as int),
    {
        proof {
            lemma_steps_preserve_wf(self@, arbitrary(), worker as int);
        }
        if self.workers[worker].busy {
            self.workers.set(worker, Worker { id: worker, busy: false });
            self.finished = Ghost(self.finished@ + 1);
            proof {
                assert(self@.busy =~= old(self)@.busy.update(worker as int, false));
            }
        }
    }

    /// The number of workers, fixed at construction.
    pub fn size(&self) -> (n: usize)
        requires
            self.wf(),
        ensures
            n == self@.busy.len(),
            n > 0,
    {
        self.workers.len()
    }

    /// The number of units waiting for a worker.
    pub fn pending(&self) -> (n: usize)
        ensures
            n == self@.pending.len(),
    {
        self.queue.len()
    }

    /// Whether `worker` is executing a unit.
    pub fn is_busy(&self, worker: usize) -> (b: bool)
        requires
            worker < self@.busy.len(),
        ensures
            b == self@.busy[worker as int],
    {
        self.workers[worker].busy
    }

    /// The number of workers that are executing a unit.
    pub fn busy_workers(&self) -> (n: usize)
        ensures
            n == self@.in_flight(),
            n <= self@.busy.len(),
    {
        let mut n: usize = 0;
        let mut i: usize = 0;
        while i < self.workers.len()
            invariant
                i <= self.workers@.len(),
                n == count_busy(self@.busy.take(i as int)),
                n <= i,
            decreases self.workers@.len() - i,
        {
            proof {
                assert(self@.busy.take(i + 1).drop_last() =~= self@.busy.take(i as int));
            }
            if self.workers[i].busy {
                n = n + 1;
            }
            i = i + 1;
        }
        proof {
            assert(self@.busy.take(i as int) =~= self@.busy);
        }
        n
    }
}

} // verus!
