//! The vocabulary shared by the submitting side, the IO worker and the reactor.
use vstd::prelude::*;

verus! {

/// Why a filesystem operation failed; delivered to the continuation as a value.
#[derive(Clone, Copy, Debug, PartialEq, Eq, Structural)]
pub enum FsError {
    NotFound,
    PermissionDenied,
    InvalidData,
    Other,
}

/// Why a submission was not accepted.
#[derive(Clone, Copy, Debug, PartialEq, Eq, Structural)]
pub enum SubmitError {
    /// The consuming end of the task queue is gone: the worker has terminated.
    QueueClosed,
}

/// A request for the worker. `H` is the file handle, `K` the one-shot continuation.
pub enum Task<H, K> {
    Exit,
    Println(String),
    Open(String, K),
    ReadToString(H, K),
}

/// The completion of a task, paired with the continuation that consumes it.
pub enum TaskResult<H, K> {
    Exit,
    Open(Result<H, FsError>, K),
    ReadToString(Result<String, FsError>, K),
}

/// The continuation a task carries, if any.
pub open spec fn task_cont<H, K>(t: Task<H, K>) -> Option<K> {
    match t {
        Task::Open(_, k) => Some(k),
        Task::ReadToString(_, k) => Some(k),
        _ => None,
    }
}

/// The continuation a result carries, if any.
pub open spec fn result_cont<H, K>(r: TaskResult<H, K>) -> Option<K> {
    match r {
        TaskResult::Open(_, k) => Some(k),
        TaskResult::ReadToString(_, k) => Some(k),
        _ => None,
    }
}

/// The continuations of a sequence of tasks, in order.
pub open spec fn task_conts<H, K>(s: Seq<Task<H, K>>) -> Seq<K>
    decreases s.len(),
{
    if s.len() == 0 {
        Seq::empty()
    } else {
        let rest = task_conts(s.drop_last());
        match task_cont(s.last()) {
            Some(k) => rest.push(k),
            None => rest,
        }
    }
}

/// The continuations of a sequence of results, in order.
pub open spec fn result_conts<H, K>(s: Seq<TaskResult<H, K>>) -> Seq<K>
    decreases s.len(),
{
    if s.len() == 0 {
        Seq::empty()
    } else {
        let rest = result_conts(s.drop_last());
        match result_cont(s.last()) {
            Some(k) => rest.push(k),
            None => rest,
        }
    }
}

/// The tasks a worker serves out of a queue: everything up to and including the
/// first `Exit`, or the whole queue when it holds none.
pub open spec fn served<H, K>(q: Seq<Task<H, K>>) -> Seq<Task<H, K>>
    decreases q.len(),
{
    if q.len() == 0 {
        Seq::empty()
    } else if q[0] is Exit {
        seq![q[0]]
    } else {
        seq![q[0]] + served(q.subrange(1, q.len() as int))
    }
}

/// The task that opens the file at `path` for `callback`.
pub fn open_task<H, K>(path: &str, callback: K) -> (t: Task<H, K>)
    ensures
        t matches Task::Open(p, k) && p@ == path@ && k == callback,
{
    Task::Open(path.to_owned(), callback)
}

/// The task that reads all of `file` as text for `callback`.
pub fn read_task<H, K>(file: H, callback: K) -> (t: Task<H, K>)
    ensures
        t == Task::<H, K>::ReadToString(file, callback),
{
    Task::ReadToString(file, callback)
}

/// The task that writes `text` as a diagnostic line.
pub fn println_task<H, K>(text: String) -> (t: Task<H, K>)
    ensures
        t == Task::<H, K>::Println(text),
{
    Task::Println(text)
}

/// The task that asks the worker to acknowledge shutdown and stop.
pub fn exit_task<H, K>() -> (t: Task<H, K>)
    ensures
        t == Task::<H, K>::Exit,
{
    Task::Exit
}

} // verus!
