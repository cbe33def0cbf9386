//! What holds of a window and its timer worker, each alone and the two
//! together, stated over the messages that pass between them.

use crate::content::ControlMsgView;
use crate::timer::{registration, scheduled, TimerControlMsgView};
use crate::value::JSVal;
use crate::window::{after_close, after_finalize};
use crate::worker::{
    closes, consumed, forward, forwarded, lemma_forwarded_push, lemma_live_len,
    lemma_live_len_is, live_len, no_close, step, WorkerState,
};
use vstd::prelude::*;

verus! {

/// What is in flight on a timer channel once the window has asked `n`
/// times to be closed.
pub open spec fn after_closes(sent: Seq<TimerControlMsgView>, n: nat) -> Seq<TimerControlMsgView>
    decreases n,
{
    if n == 0 {
        sent
    } else {
        after_close(after_closes(sent, (n - 1) as nat))
    }
}

/// A timer asked for with a negative delay is scheduled with no delay at
/// all, whatever else the call holds; any other delay is kept as it is.
pub proof fn lemma_negative_delay_is_none(timeout: int, argc: int, argv: Seq<JSVal>)
    ensures
        timeout < 0 ==> scheduled(timeout, argc, argv).msecs == 0,
        timeout >= 0 ==> scheduled(timeout, argc, argv).msecs == timeout,
{
}

/// A scheduled timer reaches the content pipeline once. When the message
/// of the request made for it is delivered behind `sent`, on a channel that
/// holds no `Close`, the worker forwards what it forwarded for `sent` and
/// then one `Timer` notification that carries the callback and the
/// arguments of the call, and goes on running.
pub proof fn lemma_fire_forwarded_once(
    sent: Seq<TimerControlMsgView>,
    timeout: int,
    argc: int,
    argv: Seq<JSVal>,
)
    requires
        no_close(sent),
    ensures
        forwarded(sent.push(scheduled(timeout, argc, argv).msg)) == forwarded(sent).push(
            ControlMsgView::Timer(registration(argc, argv)),
        ),
        !closes(sent.push(scheduled(timeout, argc, argv).msg)),
        no_close(sent.push(scheduled(timeout, argc, argv).msg)),
{
    lemma_forwarded_push(sent, scheduled(timeout, argc, argv).msg);
}

/// `Close` is the last message of a window and the first `Close` its worker
/// meets. Before the worker comes to it, it has taken every message that
/// the window sent earlier and forwarded for each what it would have
/// forwarded without the teardown; then it stops, with its inbox empty. For
/// a window that had sent nothing, the content pipeline receives nothing.
pub proof fn lemma_teardown_drains(sent: Seq<TimerControlMsgView>)
    requires
        no_close(sent),
    ensures
        ({
            let inbox = after_finalize(sent);
            &&& inbox.last() is Close
            &&& live_len(inbox) == sent.len()
            &&& closes(inbox)
            &&& consumed(inbox) == inbox.len()
            &&& forwarded(inbox) == forwarded(sent)
            &&& sent.len() == 0 ==> forwarded(inbox) == Seq::<ControlMsgView>::empty()
        }),
{
    lemma_forwarded_push(sent, TimerControlMsgView::Close);
}

/// A window that asks to be closed and is then torn down has sent its
/// `TriggerExit` before its `Close`, and nothing behind the `Close`. The
/// worker takes both, forwards one `Exit` behind what it forwarded for the
/// messages sent earlier, and stops. For a window that had sent nothing
/// before, that `Exit` is all the content pipeline receives.
pub proof fn lemma_close_then_teardown(sent: Seq<TimerControlMsgView>)
    requires
        no_close(sent),
    ensures
        ({
            let inbox = after_finalize(after_close(sent));
            &&& inbox.len() == sent.len() + 2
            &&& inbox[sent.len() as int] is TriggerExit
            &&& inbox[sent.len() as int + 1] is Close
            &&& live_len(inbox) == sent.len() + 1
            &&& closes(inbox)
            &&& consumed(inbox) == inbox.len()
            &&& forwarded(inbox) == forwarded(sent).push(ControlMsgView::Exit)
            &&& sent.len() == 0 ==> forwarded(inbox) == seq![ControlMsgView::Exit]
        }),
{
    lemma_forwarded_push(sent, TimerControlMsgView::TriggerExit);
    lemma_forwarded_push(after_close(sent), TimerControlMsgView::Close);
}

/// Requests to close are not merged. After `n` of them the channel holds
/// `n` more `TriggerExit` messages, and a worker that receives them
/// forwards `n` more `Exit` notifications and goes on running.
pub proof fn lemma_repeated_close(sent: Seq<TimerControlMsgView>, n: nat)
    requires
        no_close(sent),
    ensures
        after_closes(sent, n) == sent + Seq::new(n, |i: int| TimerControlMsgView::TriggerExit),
        no_close(after_closes(sent, n)),
        !closes(after_closes(sent, n)),
        forwarded(after_closes(sent, n)) == forwarded(sent) + Seq::new(
            n,
            |i: int| ControlMsgView::Exit,
        ),
    decreases n,
{
    if n == 0 {
        lemma_live_len_is(sent, sent.len() as int);
    } else {
        let before = after_closes(sent, (n - 1) as nat);
        lemma_repeated_close(sent, (n - 1) as nat);
        lemma_forwarded_push(before, TimerControlMsgView::TriggerExit);
    }
}

/// Nothing is forwarded past a `Close`. Whatever stands behind a `Close`,
/// and however much of it, the worker takes and forwards what it would if
/// the inbox ended with that `Close`. Where that is the first `Close`, it
/// forwards what it would forward for the messages before it, and takes
/// those and the `Close`.
pub proof fn lemma_nothing_after_close(
    before: Seq<TimerControlMsgView>,
    behind: Seq<TimerControlMsgView>,
)
    ensures
        ({
            let inbox = after_finalize(before) + behind;
            &&& closes(inbox)
            &&& consumed(inbox) == consumed(after_finalize(before))
            &&& consumed(inbox) <= before.len() + 1
            &&& forwarded(inbox) == forwarded(after_finalize(before))
            &&& no_close(before) ==> consumed(inbox) == before.len() + 1 && forwarded(inbox)
                == forwarded(before)
        }),
{
    let ended = after_finalize(before);
    let inbox = ended + behind;
    lemma_live_len(ended);
    let first = live_len(ended) as int;
    if first == ended.len() {
        assert(ended.take(first)[before.len() as int] is Close);
    }
    assert(inbox.take(first) =~= ended.take(first));
    lemma_live_len_is(inbox, first);
    if no_close(before) {
        lemma_forwarded_push(before, TimerControlMsgView::Close);
    }
}

/// Where a worker that starts in `state` stands once it has been handed
/// every message of `inbox`, in order, and what it has sent to the content
/// pipeline on the way.
pub open spec fn steps(state: WorkerState, inbox: Seq<TimerControlMsgView>) -> (
    WorkerState,
    Seq<ControlMsgView>,
)
    decreases inbox.len(),
{
    if inbox.len() == 0 {
        (state, Seq::empty())
    } else {
        let (next, out) = step(state, inbox[0]);
        let (last, rest) = steps(next, inbox.drop_first());
        (
            last,
            match out {
                Some(notification) => seq![notification] + rest,
                None => rest,
            },
        )
    }
}

/// The receive loop is the transition, repeated. A running worker that is
/// handed a whole inbox, message by message, ends where the loop ends and
/// has forwarded what the loop forwards, though the loop leaves what stands
/// behind the first `Close` untouched: on those messages the transition
/// does nothing. A stopped worker stays stopped and forwards nothing.
pub proof fn lemma_steps(state: WorkerState, inbox: Seq<TimerControlMsgView>)
    ensures
        state == WorkerState::Terminated ==> steps(state, inbox) == (
            WorkerState::Terminated,
            Seq::<ControlMsgView>::empty(),
        ),
        state == WorkerState::Running ==> steps(state, inbox) == (
            if closes(inbox) {
                WorkerState::Terminated
            } else {
                WorkerState::Running
            },
            forwarded(inbox),
        ),
    decreases inbox.len(),
{
    if inbox.len() > 0 {
        let rest = inbox.drop_first();
        lemma_steps(step(state, inbox[0]).0, rest);
        if state == WorkerState::Running && !(inbox[0] is Close) {
            lemma_live_len(rest);
            assert forall|i: int| 0 <= i < live_len(rest) implies forwarded(inbox)[i + 1]
                == forwarded(rest)[i] by {}
        }
    }
}

/// A worker that has stopped stays stopped and forwards nothing, whatever
/// message it is given.
pub proof fn lemma_terminated_is_final(msg: TimerControlMsgView)
    ensures
        step(WorkerState::Terminated, msg) == (WorkerState::Terminated, None::<ControlMsgView>),
{
}

/// A running worker stops on `Close` and on nothing else, and it forwards
/// on every message but `Close`.
pub proof fn lemma_only_close_stops(msg: TimerControlMsgView)
    ensures
        step(WorkerState::Running, msg).0 == WorkerState::Terminated <==> msg is Close,
        step(WorkerState::Running, msg).1 == forward(msg),
        forward(msg) is None <==> msg is Close,
{
}

} // verus!
