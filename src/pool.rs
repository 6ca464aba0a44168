//! The decisions of a fixed-size worker pool.
//!
//! A `Dispatcher` holds the shared job queue and the state of every worker
//! slot. The threads themselves live with the caller: a worker thread asks
//! `receive` for its next message, runs the job it is handed, and reports
//! back through `finish`. Shutdown closes the queue; each worker that then
//! finds the queue empty is told to terminate, and the caller joins it.
use std::collections::VecDeque;
use vstd::prelude::*;

verus! {

/// What a worker is handed when it asks for work.
pub enum Message<J> {
    NewJob(J),
    Terminate,
}

/// The state of one worker slot.
#[derive(PartialEq, Eq, Structural, Clone, Copy, Debug)]
pub enum WorkerState {
    /// Waiting for the next message.
    Idle,
    /// Executing the job it last received.
    Running,
    /// Told to terminate; its thread is about to return.
    Terminated,
    /// Its thread has been joined.
    Joined,
}

pub open spec fn is_stopped(s: WorkerState) -> bool {
    s == WorkerState::Terminated || s == WorkerState::Joined
}

pub struct Dispatcher<J> {
    queue: VecDeque<J>,
    workers: Vec<WorkerState>,
    closed: bool,
    /// Every job ever submitted, in submission order; a job's index here is its ticket.
    log: Ghost<Seq<J>>,
    /// How many jobs have been handed to workers.
    taken: Ghost<nat>,
    /// The ticket of the job each running worker is executing.
    running: Ghost<Map<int, nat>>,
    /// The tickets of completed jobs, in order of completion.
    done: Ghost<Seq<nat>>,
}

impl<J> Dispatcher<J> {
    /// Jobs waiting in the queue, oldest first.
    pub closed spec fn pending(&self) -> Seq<J> {
        self.queue@
    }

    pub closed spec fn workers(&self) -> Seq<WorkerState> {
        self.workers@
    }

    pub closed spec fn is_closed(&self) -> bool {
        self.closed
    }

    /// All jobs submitted so far, in submission order.
    pub closed spec fn submitted(&self) -> Seq<J> {
        self.log@
    }

    /// Number of jobs handed to workers so far.
    pub closed spec fn taken(&self) -> nat {
        self.taken@
    }

    /// For each running worker, the ticket of its job.
    pub closed spec fn running(&self) -> Map<int, nat> {
        self.running@
    }

    /// Tickets of completed jobs, in order of completion.
    pub closed spec fn done(&self) -> Seq<nat> {
        self.done@
    }

    pub closed spec fn wf(&self) -> bool {
        let n = self.workers@.len();
        &&& n > 0
        &&& self.taken@ + self.queue@.len() == self.log@.len()
        &&& self.queue@ == self.log@.subrange(self.taken@ as int, self.log@.len() as int)
        &&& forall|i: int|
            #![trigger self.running@.dom().contains(i)]
            self.running@.dom().contains(i) <==> (0 <= i < n && self.workers@[i]
                == WorkerState::Running)
        &&& forall|i: int| #[trigger]
            self.running@.dom().contains(i) ==> self.running@[i] < self.taken@
        &&& forall|i: int, j: int|
            #![trigger self.running@[i], self.running@[j]]
            self.running@.dom().contains(i) && self.running@.dom().contains(j) && i != j
                ==> self.running@[i] != self.running@[j]
        &&& self.done@.no_duplicates()
        &&& forall|k: int| 0 <= k < self.done@.len() ==> #[trigger] self.done@[k] < self.taken@
        &&& forall|k: int, i: int|
            #![trigger self.done@[k], self.running@[i]]
            0 <= k < self.done@.len() && self.running@.dom().contains(i) ==> self.done@[k]
                != self.running@[i]
        &&& forall|t: nat|
            t < self.taken@ ==> #[trigger] self.done@.contains(t)
                || self.running@.contains_value(t)
        &&& forall|i: int|
            0 <= i < n && #[trigger] is_stopped(self.workers@[i]) ==> self.closed
                && self.queue@.len() == 0
    }

    /// A pool of `size` idle workers with an empty, open queue.
    pub fn new(size: usize) -> (r: Self)
        requires
            size > 0,
        ensures
            r.wf(),
            r.workers() == Seq::new(size as nat, |i: int| WorkerState::Idle),
            r.pending() == Seq::<J>::empty(),
            !r.is_closed(),
            r.submitted() == Seq::<J>::empty(),
            r.taken() == 0,
            r.running() == Map::<int, nat>::empty(),
            r.done() == Seq::<nat>::empty(),
    {
        let mut workers: Vec<WorkerState> = Vec::with_capacity(size);
        let mut id: usize = 0;
        while id < size
            invariant
                id <= size,
                workers@ == Seq::new(id as nat, |i: int| WorkerState::Idle),
            decreases size - id,
        {
            workers.push(WorkerState::Idle);
            id = id + 1;
        }
        let r = Dispatcher {
            queue: VecDeque::new(),
            workers,
            closed: false,
            log: Ghost(Seq::empty()),
            taken: Ghost(0),
            running: Ghost(Map::empty()),
            done: Ghost(Seq::empty()),
        };
        assert(r.queue@ =~= r.log@.subrange(0, 0));
        r
    }

    pub fn worker_count(&self) -> (r: usize)
        ensures
            r == self.workers().len(),
    {
        self.workers.len()
    }

    pub fn worker_state(&self, id: usize) -> (r: WorkerState)
        requires
            id < self.workers().len(),
        ensures
            r == self.workers()[id as int],
    {
        self.workers[id]
    }

    /// Number of jobs waiting in the queue.
    pub fn pending_len(&self) -> (r: usize)
        ensures
            r == self.pending().len(),
    {
        self.queue.len()
    }

    pub fn is_closed_now(&self) -> (r: bool)
        ensures
            r == self.is_closed(),
    {
        self.closed
    }

    /// Queue a job behind every job submitted before it.
    pub fn submit(&mut self, job: J)
        requires
            old(self).wf(),
            !old(self).is_closed(),
        ensures
            final(self).wf(),
            final(self).pending() == old(self).pending().push(job),
            final(self).submitted() == old(self).submitted().push(job),
            final(self).workers() == old(self).workers(),
            final(self).is_closed() == old(self).is_closed(),
            final(self).taken() == old(self).taken(),
            final(self).running() == old(self).running(),
            final(self).done() == old(self).done(),
    {
        proof {
            self.log@ = self.log@.push(job);
        }
        self.queue.push_back(job);
        assert(self.queue@ =~= self.log@.subrange(self.taken@ as int, self.log@.len() as int));
    }
    /// Worker `id`, idle, asks for its next message. The oldest queued job is
    /// handed out first; once the queue is closed and empty the worker is told
    /// to terminate; while it is open and empty there is nothing yet (`None`),
    /// and the worker waits and asks again.
    pub fn receive(&mut self, id: usize) -> (r: Option<Message<J>>)
        requires
            old(self).wf(),
            id < old(self).workers().len(),
            old(self).workers()[id as int] == WorkerState::Idle,
        ensures
            final(self).wf(),
            final(self).submitted() == old(self).submitted(),
            final(self).is_closed() == old(self).is_closed(),
            final(self).done() == old(self).done(),
            old(self).pending().len() > 0 ==> {
                &&& r == Some(Message::NewJob(old(self).pending()[0]))
                &&& old(self).pending()[0] == old(self).submitted()[old(self).taken() as int]
                &&& final(self).pending() == old(self).pending().drop_first()
                &&& final(self).workers() == old(self).workers().update(
                    id as int,
                    WorkerState::Running,
                )
                &&& final(self).taken() == old(self).taken() + 1
                &&& final(self).running() == old(self).running().insert(
                    id as int,
                    old(self).taken(),
                )
            },
            old(self).pending().len() == 0 && old(self).is_closed() ==> {
                &&& r == Some(Message::<J>::Terminate)
                &&& final(self).pending() == old(self).pending()
                &&& final(self).workers() == old(self).workers().update(
                    id as int,
                    WorkerState::Terminated,
                )
                &&& final(self).taken() == old(self).taken()
                &&& final(self).running() == old(self).running()
            },
            old(self).pending().len() == 0 && !old(self).is_closed() ==> {
                &&& r is None
                &&& final(self).pending() == old(self).pending()
                &&& final(self).workers() == old(self).workers()
                &&& final(self).taken() == old(self).taken()
                &&& final(self).running() == old(self).running()
            },
    {
        match self.queue.pop_front() {
            Some(job) => {
                proof {
                    let ghost old_running = self.running@;
                    let ghost t = self.taken@;
                    self.running@ = self.running@.insert(id as int, t);
                    self.taken@ = t + 1;
                    assert forall|u: nat| u < self.taken@ implies #[trigger] self.done@.contains(u)
                        || self.running@.contains_value(u) by {
                        if u == t {
                            assert(self.running@.dom().contains(id as int));
                        } else if !self.done@.contains(u) {
                            let i = choose|i: int|
                                #[trigger] old_running.dom().contains(i) && old_running[i] == u;
                            assert(self.running@.dom().contains(i) && self.running@[i] == u);
                        }
                    }
                }
                self.workers.set(id, WorkerState::Running);
                assert(self.queue@ =~= self.log@.subrange(
                    self.taken@ as int,
                    self.log@.len() as int,
                ));
                Some(Message::NewJob(job))
            },
            None => {
                if self.closed {
                    self.workers.set(id, WorkerState::Terminated);
                    Some(Message::Terminate)
                } else {
                    None
                }
            },
        }
    }

    /// Worker `id` has finished the job it was running and is idle again.
    pub fn finish(&mut self, id: usize)
        requires
            old(self).wf(),
            id < old(self).workers().len(),
            old(self).workers()[id as int] == WorkerState::Running,
        ensures
            final(self).wf(),
            final(self).workers() == old(self).workers().update(id as int, WorkerState::Idle),
            final(self).done() == old(self).done().push(old(self).running()[id as int]),
            final(self).running() == old(self).running().remove(id as int),
            final(self).pending() == old(self).pending(),
            final(self).submitted() == old(self).submitted(),
            final(self).taken() == old(self).taken(),
            final(self).is_closed() == old(self).is_closed(),
    {
        proof {
            let ghost old_running = self.running@;
            let ghost old_done = self.done@;
            let ghost t = old_running[id as int];
            assert(old_running.dom().contains(id as int));
            self.done@ = old_done.push(t);
            self.running@ = old_running.remove(id as int);
            assert forall|k: int, i: int|
                #![trigger self.done@[k], self.running@[i]]
                0 <= k < self.done@.len() && self.running@.dom().contains(i)
                    implies self.done@[k] != self.running@[i] by {
                if k == old_done.len() {
                    assert(old_running[i] != old_running[id as int]);
                } else {
                    assert(old_done[k] != old_running[i]);
                }
            }
            assert(forall|k: int| 0 <= k < self.done@.len() ==> #[trigger] self.done@[k] < self.taken@);
            assert forall|a: int, b: int|
                0 <= a < self.done@.len() && 0 <= b < self.done@.len() && a != b
                    implies self.done@[a] != self.done@[b] by {
                if a == old_done.len() {
                    assert(old_done[b] != old_running[id as int]);
                } else if b == old_done.len() {
                    assert(old_done[a] != old_running[id as int]);
                }
            }
            assert forall|u: nat| u < self.taken@ implies #[trigger] self.done@.contains(u)
                || self.running@.contains_value(u) by {
                if old_done.contains(u) {
                    let k = choose|k: int| 0 <= k < old_done.len() && old_done[k] == u;
                    assert(self.done@[k] == u);
                } else {
                    let i = choose|i: int|
                        #[trigger] old_running.dom().contains(i) && old_running[i] == u;
                    if i == id as int {
                        assert(self.done@[old_done.len() as int] == u);
                    } else {
                        assert(self.running@.dom().contains(i) && self.running@[i] == u);
                    }
                }
            }
        }
        self.workers.set(id, WorkerState::Idle);
    }

    /// Begin shutdown: no job can be submitted from now on, and every worker
    /// that finds the queue empty is told to terminate.
    pub fn close(&mut self)
        requires
            old(self).wf(),
            !old(self).is_closed(),
        ensures
            final(self).wf(),
            final(self).is_closed(),
            final(self).pending() == old(self).pending(),
            final(self).workers() == old(self).workers(),
            final(self).submitted() == old(self).submitted(),
            final(self).taken() == old(self).taken(),
            final(self).running() == old(self).running(),
            final(self).done() == old(self).done(),
    {
        self.closed = true;
    }

    /// The thread of worker `id`, which was told to terminate, has been joined.
    pub fn mark_joined(&mut self, id: usize)
        requires
            old(self).wf(),
            id < old(self).workers().len(),
            old(self).workers()[id as int] == WorkerState::Terminated,
        ensures
            final(self).wf(),
            final(self).workers() == old(self).workers().update(id as int, WorkerState::Joined),
            final(self).pending() == old(self).pending(),
            final(self).submitted() == old(self).submitted(),
            final(self).is_closed() == old(self).is_closed(),
            final(self).taken() == old(self).taken(),
            final(self).running() == old(self).running(),
            final(self).done() == old(self).done(),
    {
        assert(is_stopped(self.workers@[id as int]));
        self.workers.set(id, WorkerState::Joined);
        assert(is_stopped(self.workers@[id as int]));
    }
}

/// No job is handed to two workers, and no running job has completed before:
/// each job runs at most once.
pub proof fn lemma_job_runs_at_most_once<J>(d: &Dispatcher<J>, i: int, j: int)
    requires
        d.wf(),
        d.running().dom().contains(i),
        d.running().dom().contains(j),
        i != j,
    ensures
        d.running()[i] != d.running()[j],
        !d.done().contains(d.running()[i]),
        d.done().no_duplicates(),
{
    if d.done().contains(d.running()[i]) {
        let k = choose|k: int| 0 <= k < d.done().len() && d.done()[k] == d.running()[i];
        assert(d.done()[k] != d.running()[i]);
    }
}

/// Once shutdown has begun and every worker has been joined, nothing is left
/// in the queue, no worker is running, and every submitted job has completed
/// exactly once.
pub proof fn lemma_drained_after_join<J>(d: &Dispatcher<J>)
    requires
        d.wf(),
        forall|i: int| 0 <= i < d.workers().len() ==> d.workers()[i] == WorkerState::Joined,
    ensures
        d.is_closed(),
        d.pending().len() == 0,
        d.taken() == d.submitted().len(),
        d.running().dom().is_empty(),
        d.done().no_duplicates(),
        forall|t: nat| #[trigger] d.done().contains(t) <==> t < d.submitted().len(),
{
    assert(is_stopped(d.workers()[0]));
    assert forall|i: int| !d.running().dom().contains(i) by {
        if d.running().dom().contains(i) {
            assert(d.workers()[i] == WorkerState::Running);
        }
    }
    assert forall|t: nat| #[trigger] d.done().contains(t) <==> t < d.submitted().len() by {
        if d.done().contains(t) {
            let k = choose|k: int| 0 <= k < d.done().len() && d.done()[k] == t;
            assert(d.done()[k] < d.taken());
        }
        if t < d.submitted().len() && !d.done().contains(t) {
            assert(d.running().contains_value(t));
            let i = choose|i: int| #[trigger] d.running().dom().contains(i) && d.running()[i] == t;
        }
    }
}

} // verus!
