//! The decisions of the IO worker: which blocking operation a task asks for, and
//! which result goes back to the reactor once that operation has finished.
use vstd::prelude::*;
use crate::protocol::{FsError, Task, TaskResult, task_cont, task_conts, result_conts};

verus! {

/// The work the worker thread performs for an accepted task.
pub enum Job<H, K> {
    /// Write the text as a diagnostic line; nothing is published.
    Print(String),
    /// Open the file at this path, then hand the outcome to `Worker::finish`.
    Open(String),
    /// Read the whole file as text, then hand the outcome to `Worker::finish`.
    Read(H),
    /// Publish this result, arm the readiness signal, and leave the loop.
    Publish(TaskResult<H, K>),
}

/// What a blocking operation produced.
pub enum Outcome<H> {
    Opened(Result<H, FsError>),
    Read(Result<String, FsError>),
}

enum Pending<K> {
    Nothing,
    Open(K),
    Read(K),
}

/// The worker's state: the operation in flight, if any, and whether it has stopped.
pub struct Worker<H, K> {
    pending: Pending<K>,
    stopped: bool,
    tasks_seen: u64,
    consumed: Ghost<Seq<Task<H, K>>>,
    published: Ghost<Seq<TaskResult<H, K>>>,
}

impl<H, K> Worker<H, K> {
    /// The tasks taken from the queue, in order.
    pub closed spec fn consumed(&self) -> Seq<Task<H, K>> {
        self.consumed@
    }

    /// The results handed back for publication, in order.
    pub closed spec fn published(&self) -> Seq<TaskResult<H, K>> {
        self.published@
    }

    /// The continuation of the operation in flight.
    pub closed spec fn pending(&self) -> Option<K> {
        match self.pending {
            Pending::Nothing => None,
            Pending::Open(k) => Some(k),
            Pending::Read(k) => Some(k),
        }
    }

    pub closed spec fn pending_open(&self) -> bool {
        self.pending is Open
    }

    pub closed spec fn stopped(&self) -> bool {
        self.stopped
    }

    pub closed spec fn count(&self) -> u64 {
        self.tasks_seen
    }

    /// Ready to take the next task from the queue.
    pub open spec fn ready(&self) -> bool {
        !self.stopped() && self.pending() is None
    }

    pub open spec fn wf(&self) -> bool {
        &&& self.stopped() ==> self.pending() is None
        &&& self.stopped() <==> (self.consumed().len() > 0 && self.consumed().last() is Exit)
        &&& forall|i: int| 0 <= i < self.consumed().len() - 1 ==> !(#[trigger] self.consumed()[i] is Exit)
        &&& self.stopped() <==> (self.published().len() > 0 && self.published().last() is Exit)
        &&& forall|i: int| 0 <= i < self.published().len() - 1 ==> !(#[trigger] self.published()[i] is Exit)
        &&& self.pending() is None ==> result_conts(self.published()) == task_conts(self.consumed())
        &&& self.pending() is Some ==> {
            &&& self.consumed().len() > 0
            &&& task_cont(self.consumed().last()) == self.pending()
            &&& (self.consumed().last() is Open <==> self.pending_open())
            &&& result_conts(self.published()).push(self.pending()->0) == task_conts(self.consumed())
        }
    }

    pub fn new() -> (w: Self)
        ensures
            w.wf(),
            w.ready(),
            w.consumed() == Seq::<Task<H, K>>::empty(),
            w.published() == Seq::<TaskResult<H, K>>::empty(),
            w.count() == 0,
    {
        Worker {
            pending: Pending::Nothing,
            stopped: false,
            tasks_seen: 0,
            consumed: Ghost(Seq::empty()),
            published: Ghost(Seq::empty()),
        }
    }

    pub fn is_ready(&self) -> (r: bool)
        ensures
            r == self.ready(),
    {
        !self.stopped && matches!(self.pending, Pending::Nothing)
    }

    pub fn is_stopped(&self) -> (r: bool)
        ensures
            r == self.stopped(),
    {
        self.stopped
    }

    /// How many tasks were taken from the queue (saturating).
    pub fn tasks_seen(&self) -> (r: u64)
        ensures
            r == self.count(),
    {
        self.tasks_seen
    }

    /// Takes the next task from the queue and says what to do for it. A worker that
    /// has stopped, or is waiting for an operation to finish, hands the task back.
    pub fn accept(&mut self, task: Task<H, K>) -> (r: Result<Job<H, K>, Task<H, K>>)
        requires
            old(self).wf(),
        ensures
            final(self).wf(),
            !old(self).ready() ==> r == Err::<Job<H, K>, Task<H, K>>(task) && *final(self) == *old(self),
            old(self).ready() ==> {
                &&& r is Ok
                &&& final(self).consumed() == old(self).consumed().push(task)
                &&& final(self).count() == (if old(self).count() == u64::MAX { u64::MAX } else { (old(self).count() + 1) as u64 })
                &&& final(self).pending() == task_cont(task)
                &&& match task {
                    Task::Exit => {
                        &&& r->Ok_0 == Job::<H, K>::Publish(TaskResult::Exit)
                        &&& final(self).published() == old(self).published().push(TaskResult::Exit)
                        &&& final(self).stopped()
                    },
                    Task::Println(s) => {
                        &&& r->Ok_0 == Job::<H, K>::Print(s)
                        &&& final(self).published() == old(self).published()
                        &&& final(self).ready()
                    },
                    Task::Open(p, k) => {
                        &&& r->Ok_0 == Job::<H, K>::Open(p)
                        &&& final(self).published() == old(self).published()
                        &&& !final(self).stopped()
                        &&& final(self).pending_open()
                    },
                    Task::ReadToString(h, k) => {
                        &&& r->Ok_0 == Job::<H, K>::Read(h)
                        &&& final(self).published() == old(self).published()
                        &&& !final(self).stopped()
                        &&& !final(self).pending_open()
                    },
                }
            },
    {
        if self.stopped || !matches!(self.pending, Pending::Nothing) {
            return Err(task);
        }
        proof {
            reveal_with_fuel(task_conts, 2);
        }
        self.tasks_seen = self.tasks_seen.saturating_add(1);
        let ghost old_consumed = self.consumed@;
        self.consumed = Ghost(self.consumed@.push(task));
        assert(self.consumed@.drop_last() == old_consumed);
        match task {
            Task::Exit => {
                self.stopped = true;
                let ghost old_published = self.published@;
                self.published = Ghost(self.published@.push(TaskResult::Exit));
                assert(self.published@.drop_last() == old_published);
                Ok(Job::Publish(TaskResult::Exit))
            },
            Task::Println(s) => Ok(Job::Print(s)),
            Task::Open(p, k) => {
                self.pending = Pending::Open(k);
                Ok(Job::Open(p))
            },
            Task::ReadToString(h, k) => {
                self.pending = Pending::Read(k);
                Ok(Job::Read(h))
            },
        }
    }
    /// Pairs the outcome of the operation in flight with that operation's
    /// continuation. A failed operation is a result like any other: the worker goes
    /// on to the next task. An outcome of the wrong kind, or one with no operation
    /// in flight, is handed back.
    pub fn finish(&mut self, outcome: Outcome<H>) -> (r: Result<TaskResult<H, K>, Outcome<H>>)
        requires
            old(self).wf(),
        ensures
            final(self).wf(),
            final(self).consumed() == old(self).consumed(),
            final(self).count() == old(self).count(),
            match (old(self).pending(), outcome) {
                (Some(k), Outcome::Opened(o)) if old(self).pending_open() => {
                    &&& r == Ok::<TaskResult<H, K>, Outcome<H>>(TaskResult::Open(o, k))
                    &&& final(self).published() == old(self).published().push(r->Ok_0)
                    &&& final(self).ready()
                },
                (Some(k), Outcome::Read(o)) if !old(self).pending_open() => {
                    &&& r == Ok::<TaskResult<H, K>, Outcome<H>>(TaskResult::ReadToString(o, k))
                    &&& final(self).published() == old(self).published().push(r->Ok_0)
                    &&& final(self).ready()
                },
                _ => r == Err::<TaskResult<H, K>, Outcome<H>>(outcome) && *final(self) == *old(self),
            },
    {
        let mut pending = Pending::Nothing;
        std::mem::swap(&mut pending, &mut self.pending);
        let result = match (pending, outcome) {
            (Pending::Open(k), Outcome::Opened(o)) => TaskResult::Open(o, k),
            (Pending::Read(k), Outcome::Read(o)) => TaskResult::ReadToString(o, k),
            (pending, outcome) => {
                self.pending = pending;
                return Err(outcome);
            },
        };
        proof {
            reveal_with_fuel(result_conts, 2);
        }
        let ghost old_published = self.published@;
        self.published = Ghost(self.published@.push(result));
        assert(self.published@.drop_last() == old_published);
        Ok(result)
    }
}

} // verus!
