//! What holds of the bridge as a whole, over the worker's and the reactor's models.
use vstd::prelude::*;
use crate::protocol::{Task, TaskResult, result_conts, task_conts, served};
use crate::reactor::{Phase, ReactorView};
use crate::worker::Worker;

verus! {

proof fn lemma_result_conts_append<H, K>(a: Seq<TaskResult<H, K>>, b: Seq<TaskResult<H, K>>)
    ensures
        result_conts(a + b) == result_conts(a) + result_conts(b),
    decreases b.len(),
{
    if b.len() == 0 {
        assert(a + b =~= a);
        assert(result_conts(a) + result_conts(b) =~= result_conts(a));
    } else {
        lemma_result_conts_append(a, b.drop_last());
        assert((a + b).drop_last() =~= a + b.drop_last());
        assert((a + b).last() == b.last());
        match crate::protocol::result_cont(b.last()) {
            Some(k) => {
                assert(result_conts(a) + result_conts(b.drop_last()).push(k)
                    =~= (result_conts(a) + result_conts(b.drop_last())).push(k));
            },
            None => {},
        }
    }
}

proof fn lemma_result_conts_prefix<H, K>(a: Seq<TaskResult<H, K>>, b: Seq<TaskResult<H, K>>)
    requires
        a.is_prefix_of(b),
    ensures
        result_conts(a).is_prefix_of(result_conts(b)),
    decreases b.len(),
{
    if a.len() == b.len() {
        assert(a =~= b);
    } else {
        assert(a.is_prefix_of(b.drop_last()));
        lemma_result_conts_prefix(a, b.drop_last());
    }
}

proof fn lemma_task_conts_prefix<H, K>(a: Seq<Task<H, K>>, b: Seq<Task<H, K>>)
    requires
        a.is_prefix_of(b),
    ensures
        task_conts(a).is_prefix_of(task_conts(b)),
    decreases b.len(),
{
    if a.len() == b.len() {
        assert(a =~= b);
    } else {
        assert(a.is_prefix_of(b.drop_last()));
        lemma_task_conts_prefix(a, b.drop_last());
    }
}

proof fn lemma_served_prefix<H, K>(c: Seq<Task<H, K>>, q: Seq<Task<H, K>>)
    requires
        c.is_prefix_of(q),
        c.len() > 0,
        c.last() is Exit,
        forall|i: int| 0 <= i < c.len() - 1 ==> !(#[trigger] c[i] is Exit),
    ensures
        served(q) == c,
    decreases c.len(),
{
    assert(c[0] == q[0]);
    if c.len() == 1 {
        assert(served(q) =~= c);
    } else {
        let c1 = c.subrange(1, c.len() as int);
        let q1 = q.subrange(1, q.len() as int);
        assert(!(c[0] is Exit));
        assert forall|i: int| 0 <= i < c1.len() - 1 implies !(#[trigger] c1[i] is Exit) by {
            assert(c1[i] == c[i + 1]);
        }
        assert(c1.is_prefix_of(q1));
        lemma_served_prefix(c1, q1);
        assert(served(q) =~= c);
    }
}

/// Callbacks fire in submission order. The worker takes tasks from the FIFO queue
/// in the order they were `submitted` (a handle's log, `Fs::sent`), and the reactor
/// takes the worker's results in the order they were published; the continuations
/// the reactor hands on are then, in the same order, the leading continuations of
/// the submitted tasks.
pub proof fn lemma_callbacks_in_submission_order<H, K>(
    submitted: Seq<Task<H, K>>,
    w: Worker<H, K>,
    r: ReactorView<H, K>,
)
    requires
        w.wf(),
        r.wf(),
        w.consumed().is_prefix_of(submitted),
        r.received.is_prefix_of(w.published()),
    ensures
        r.invoked.is_prefix_of(task_conts(submitted)),
{
    lemma_result_conts_prefix(r.received, w.published());
    lemma_task_conts_prefix(w.consumed(), submitted);
    let rc = result_conts(w.published());
    if w.pending() is Some {
        assert(rc.is_prefix_of(rc.push(w.pending()->0)));
    }
}

/// Every continuation fires once, none lost and none repeated. When the worker has
/// taken every `submitted` task and finished the last of them, and the reactor has
/// taken everything the worker published, the continuations handed on are exactly
/// those of the submitted tasks, each once, in submission order.
pub proof fn lemma_every_callback_fires_once<H, K>(
    submitted: Seq<Task<H, K>>,
    w: Worker<H, K>,
    r: ReactorView<H, K>,
)
    requires
        w.wf(),
        r.wf(),
        w.pending() is None,
        w.consumed() == submitted,
        r.received == w.published(),
    ensures
        r.invoked == task_conts(submitted),
{
}

/// Close ends both loops, after everything queued before it. Once the worker has
/// taken a close from its FIFO queue `q`, it has taken exactly `served(q)`: every
/// task ahead of the first close, then that close. A reactor that has taken all of
/// the worker's output has then stopped, having invoked every continuation of them.
pub proof fn lemma_close_ends_both_loops<H, K>(q: Seq<Task<H, K>>, w: Worker<H, K>, r: ReactorView<H, K>)
    requires
        w.wf(),
        r.wf(),
        w.consumed().is_prefix_of(q),
        w.stopped(),
        r.received == w.published(),
    ensures
        w.consumed() == served(q),
        served(q).last() is Exit,
        r.phase == Phase::Stopped,
        r.invoked == task_conts(w.consumed()),
{
    lemma_served_prefix(w.consumed(), q);
}

/// Closing twice is harmless: whatever follows the first close in the queue, a
/// further close included, the worker serves the same tasks, and the last of them
/// is a close.
pub proof fn lemma_close_is_idempotent<H, K>(q: Seq<Task<H, K>>, more: Seq<Task<H, K>>)
    ensures
        served(q.push(Task::Exit) + more) == served(q.push(Task::Exit)),
        served(q.push(Task::Exit)).len() > 0,
        served(q.push(Task::Exit)).last() is Exit,
    decreases q.len(),
{
    let a = q.push(Task::Exit) + more;
    let b = q.push(Task::Exit);
    if q.len() == 0 {
        assert(a[0] is Exit);
        assert(b[0] is Exit);
        assert(served(a) =~= served(b));
    } else if q[0] is Exit {
        assert(a[0] == q[0]);
        assert(b[0] == q[0]);
    } else {
        let q1 = q.subrange(1, q.len() as int);
        lemma_close_is_idempotent(q1, more);
        assert(a.subrange(1, a.len() as int) =~= q1.push(Task::Exit) + more);
        assert(b.subrange(1, b.len() as int) =~= q1.push(Task::Exit));
        assert(a[0] == q[0]);
        assert(b[0] == q[0]);
    }
}

proof fn lemma_drain_pass<H, K>(v: ReactorView<H, K>, rs: Seq<TaskResult<H, K>>)
    requires
        v.phase == Phase::Draining,
        forall|i: int| 0 <= i < rs.len() ==> !(#[trigger] rs[i] is Exit),
    ensures
        v.receive_all(rs).phase == Phase::Draining,
        v.receive_all(rs).received == v.received + rs,
        v.receive_all(rs).invoked == v.invoked + result_conts(rs),
    decreases rs.len(),
{
    if rs.len() == 0 {
        assert(v.received + rs =~= v.received);
        assert(v.invoked + result_conts(rs) =~= v.invoked);
    } else {
        let init = rs.drop_last();
        assert forall|i: int| 0 <= i < init.len() implies !(#[trigger] init[i] is Exit) by {
            assert(init[i] == rs[i]);
        }
        lemma_drain_pass(v, init);
        assert(!(rs.last() is Exit));
        assert((v.received + init).push(rs.last()) =~= v.received + rs);
        assert(crate::protocol::result_cont(rs.last()) is Some);
        assert((v.invoked + result_conts(init)).push(crate::protocol::result_cont(rs.last())->0)
            =~= v.invoked + result_conts(rs));
    }
}

/// No completion is lost when wakeups coalesce. One edge for the bridge's token,
/// taken while polling, drains every result already queued (`rs`, none of them a
/// shutdown acknowledgement) in order, invokes each of their continuations, and
/// ends with the registration re-armed.
pub proof fn lemma_one_edge_drains_all<H, K>(v: ReactorView<H, K>, rs: Seq<TaskResult<H, K>>)
    requires
        v.wf(),
        v.phase == Phase::Polling,
        forall|i: int| 0 <= i < rs.len() ==> !(#[trigger] rs[i] is Exit),
    ensures
        v.fs_event().receive_all(rs).receive(None).phase == Phase::Polling,
        v.fs_event().receive_all(rs).receive(None).received == v.received + rs,
        v.fs_event().receive_all(rs).receive(None).invoked == v.invoked + result_conts(rs),
        v.fs_event().receive_all(rs).receive(None).wf(),
{
    lemma_drain_pass(v.fs_event(), rs);
    lemma_result_conts_append(v.received, rs);
    let after = v.fs_event().receive_all(rs).receive(None);
    assert forall|i: int| 0 <= i < after.received.len() - 1 implies !(#[trigger] after.received[i] is Exit) by {
        if i < v.received.len() {
            assert(after.received[i] == v.received[i]);
        } else {
            assert(after.received[i] == rs[i - v.received.len()]);
        }
    }
    if rs.len() > 0 {
        assert(after.received.last() == rs.last());
    } else {
        assert(after.received =~= v.received);
    }
}

} // verus!
