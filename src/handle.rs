//! The submitting front of the bridge: a cheaply cloned handle over the sending
//! end of the task queue.
use vstd::prelude::*;
use crate::protocol::{SubmitError, Task, exit_task, open_task, println_task, read_task};

verus! {

/// crossbeam_channel::Sender, carried opaquely: the sending end of the task queue.
#[verifier::external_type_specification]
#[verifier::external_body]
#[verifier::reject_recursive_types(T)]
pub struct ExSender<T>(crossbeam_channel::Sender<T>);

/// crossbeam_channel::Receiver, carried opaquely: the consuming end, handed to the worker.
#[verifier::external_type_specification]
#[verifier::external_body]
#[verifier::reject_recursive_types(T)]
pub struct ExReceiver<T>(crossbeam_channel::Receiver<T>);

/// Relies on crossbeam_channel::unbounded: a fresh queue with no capacity bound,
/// so that sending on it never blocks.
#[verifier::external_body]
fn unbounded_queue<T>() -> (crossbeam_channel::Sender<T>, crossbeam_channel::Receiver<T>) {
    crossbeam_channel::unbounded()
}

/// Relies on crossbeam_channel::Sender::send: it fails only when every receiver is
/// gone, and then hands the message back unchanged.
#[verifier::external_body]
fn send_on<T>(tx: &crossbeam_channel::Sender<T>, msg: T) -> (r: Result<(), T>)
    ensures
        r matches Err(m) ==> m == msg,
{
    tx.send(msg).map_err(|e| e.0)
}

/// Relies on crossbeam_channel::Sender's Clone: the copy feeds the same queue.
pub assume_specification<T>[ <crossbeam_channel::Sender<T> as Clone>::clone ](
    s: &crossbeam_channel::Sender<T>,
) -> crossbeam_channel::Sender<T>;

/// A handle for submitting tasks. Every clone feeds the same queue, and so the
/// same worker and reactor; each handle keeps its own log of what it submitted.
#[verifier::reject_recursive_types(H)]
#[verifier::reject_recursive_types(K)]
pub struct Fs<H, K> {
    task_sender: crossbeam_channel::Sender<Task<H, K>>,
    sent: Ghost<Seq<Task<H, K>>>,
}

impl<H, K> Clone for Fs<H, K> {
    /// A handle on the same queue, with a log of its own that starts empty.
    fn clone(&self) -> (r: Self) {
        Fs { task_sender: self.task_sender.clone(), sent: Ghost(Seq::empty()) }
    }
}

/// What a submitter sees of a send: success, or a queue whose consumer is gone.
pub fn submit_outcome<H, K>(sent: Result<(), Task<H, K>>) -> (r: Result<(), SubmitError>)
    ensures
        r is Ok <==> sent is Ok,
        r is Err ==> r == Err::<(), SubmitError>(SubmitError::QueueClosed),
{
    match sent {
        Ok(()) => Ok(()),
        Err(_) => Err(SubmitError::QueueClosed),
    }
}

impl<H, K> Fs<H, K> {
    /// The tasks this handle put on the queue, in order.
    pub closed spec fn sent(&self) -> Seq<Task<H, K>> {
        self.sent@
    }

    /// A handle over a new unbounded task queue, with the queue's consuming end.
    pub fn new() -> (r: (Fs<H, K>, crossbeam_channel::Receiver<Task<H, K>>))
        ensures
            r.0.sent() == Seq::<Task<H, K>>::empty(),
    {
        let (task_sender, task_receiver) = unbounded_queue();
        (Fs { task_sender, sent: Ghost(Seq::empty()) }, task_receiver)
    }

    /// Puts `task` on the queue, at its end; a queue whose consumer is gone
    /// reports `QueueClosed` and takes nothing.
    pub fn submit(&mut self, task: Task<H, K>) -> (r: Result<(), SubmitError>)
        ensures
            r is Ok ==> final(self).sent() == old(self).sent().push(task),
            r is Err ==> r == Err::<(), SubmitError>(SubmitError::QueueClosed)
                && final(self).sent() == old(self).sent(),
    {
        let ghost queued = task;
        let sent = send_on(&self.task_sender, task);
        if sent.is_ok() {
            self.sent = Ghost(self.sent@.push(queued));
        }
        submit_outcome(sent)
    }

    /// Asks the worker to write `string` as a diagnostic line.
    pub fn println(&mut self, string: String) -> (r: Result<(), SubmitError>)
        ensures
            r is Ok ==> final(self).sent() == old(self).sent().push(Task::Println(string)),
            r is Err ==> r == Err::<(), SubmitError>(SubmitError::QueueClosed)
                && final(self).sent() == old(self).sent(),
    {
        self.submit(println_task(string))
    }

    /// Asks the worker to open the file at `path`; `callback` receives the outcome.
    pub fn open(&mut self, path: &str, callback: K) -> (r: Result<(), SubmitError>)
        ensures
            r is Ok ==> {
                &&& final(self).sent().drop_last() == old(self).sent()
                &&& final(self).sent().len() == old(self).sent().len() + 1
                &&& final(self).sent().last() matches Task::Open(p, k) && p@ == path@ && k == callback
            },
            r is Err ==> r == Err::<(), SubmitError>(SubmitError::QueueClosed)
                && final(self).sent() == old(self).sent(),
    {
        let task = open_task(path, callback);
        let r = self.submit(task);
        proof {
            if r is Ok {
                assert(self.sent@.drop_last() =~= old(self).sent@);
            }
        }
        r
    }

    /// Asks the worker to read all of `file` as text; `callback` receives the outcome.
    pub fn read_to_string(&mut self, file: H, callback: K) -> (r: Result<(), SubmitError>)
        ensures
            r is Ok ==> final(self).sent() == old(self).sent().push(Task::ReadToString(file, callback)),
            r is Err ==> r == Err::<(), SubmitError>(SubmitError::QueueClosed)
                && final(self).sent() == old(self).sent(),
    {
        self.submit(read_task(file, callback))
    }

    /// Asks the worker to acknowledge shutdown and stop. Tasks already queued run
    /// first and nothing queued behind it runs; once the worker is gone, a further
    /// call reports `QueueClosed`.
    pub fn close(&mut self) -> (r: Result<(), SubmitError>)
        ensures
            r is Ok ==> final(self).sent() == old(self).sent().push(Task::Exit),
            r is Err ==> r == Err::<(), SubmitError>(SubmitError::QueueClosed)
                && final(self).sent() == old(self).sent(),
    {
        self.submit(exit_task())
    }
}

} // verus!
