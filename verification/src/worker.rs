//! The timer worker of a window: a loop that takes control messages in
//! order, hands elapsed timers and exit requests on to the content
//! pipeline, and stops at the first `Close`.

use crate::chan::Chan;
use crate::content::{ControlMsg, ControlMsgView};
use crate::timer::{TimerControlMsg, TimerControlMsgView};
use vstd::prelude::*;

verus! {

/// Where a worker stands in its life.
#[derive(Clone, Copy, Debug, PartialEq, Eq, Structural)]
pub enum WorkerState {
    /// Receiving: the next message will be handled.
    Running,
    /// Stopped by a `Close`. Nothing leaves this state.
    Terminated,
}

/// What a running worker sends to the content pipeline on `msg`: the
/// registration of an elapsed timer, an exit request, or, on `Close`,
/// nothing.
pub open spec fn forward(msg: TimerControlMsgView) -> Option<ControlMsgView> {
    match msg {
        TimerControlMsgView::Fire(data) => Some(ControlMsgView::Timer(data)),
        TimerControlMsgView::TriggerExit => Some(ControlMsgView::Exit),
        TimerControlMsgView::Close => None,
    }
}

/// One transition of the worker: the state it moves to on `msg`, and what
/// it sends to the content pipeline on the way.
pub open spec fn step(state: WorkerState, msg: TimerControlMsgView) -> (
    WorkerState,
    Option<ControlMsgView>,
) {
    match state {
        WorkerState::Terminated => (WorkerState::Terminated, None),
        WorkerState::Running => match msg {
            TimerControlMsgView::Close => (WorkerState::Terminated, None),
            _ => (WorkerState::Running, forward(msg)),
        },
    }
}

/// The number of messages at the head of `inbox` that stand before its
/// first `Close`; all of them where it holds none.
pub open spec fn live_len(inbox: Seq<TimerControlMsgView>) -> nat
    decreases inbox.len(),
{
    if inbox.len() == 0 || inbox[0] is Close {
        0
    } else {
        1 + live_len(inbox.drop_first())
    }
}

/// Whether a worker that receives `inbox` comes to a `Close`.
pub open spec fn closes(inbox: Seq<TimerControlMsgView>) -> bool {
    live_len(inbox) < inbox.len()
}

/// How many messages a running worker takes out of `inbox` before it
/// stops or finds it empty: those before the first `Close`, and that
/// `Close` itself.
pub open spec fn consumed(inbox: Seq<TimerControlMsgView>) -> nat {
    if closes(inbox) {
        live_len(inbox) + 1
    } else {
        inbox.len()
    }
}

/// What a running worker that receives `inbox` sends to the content
/// pipeline, in order: one notification for each message before the first
/// `Close`.
pub open spec fn forwarded(inbox: Seq<TimerControlMsgView>) -> Seq<ControlMsgView> {
    Seq::new(live_len(inbox), |i: int| forward(inbox[i])->0)
}

/// Whether no message of `msgs` is a `Close`.
pub open spec fn no_close(msgs: Seq<TimerControlMsgView>) -> bool {
    forall|i: int| 0 <= i < msgs.len() ==> !(#[trigger] msgs[i] is Close)
}

/// `live_len` is the place of the first `Close`: no message before it is a
/// `Close`, and, unless it is the inbox's length, the message there is one.
pub proof fn lemma_live_len(inbox: Seq<TimerControlMsgView>)
    ensures
        live_len(inbox) <= inbox.len(),
        no_close(inbox.take(live_len(inbox) as int)),
        live_len(inbox) < inbox.len() ==> inbox[live_len(inbox) as int] is Close,
    decreases inbox.len(),
{
    if inbox.len() == 0 || inbox[0] is Close {
    } else {
        let rest = inbox.drop_first();
        lemma_live_len(rest);
        let head = inbox.take(live_len(inbox) as int);
        assert forall|i: int| 0 <= i < head.len() implies !(#[trigger] head[i] is Close) by {
            if i > 0 {
                assert(head[i] == rest.take(live_len(rest) as int)[i - 1]);
            }
        }
    }
}

/// Only one place is that of the first `Close`: where no message before `n`
/// is a `Close`, and `n` is the inbox's length or the message at `n` is
/// one, `live_len` is `n`.
pub proof fn lemma_live_len_is(inbox: Seq<TimerControlMsgView>, n: int)
    requires
        0 <= n <= inbox.len(),
        no_close(inbox.take(n)),
        n < inbox.len() ==> inbox[n] is Close,
    ensures
        live_len(inbox) == n,
{
    lemma_live_len(inbox);
    let found = live_len(inbox) as int;
    if found < n {
        assert(inbox.take(n)[found] is Close);
    } else if n < found {
        assert(inbox.take(found)[n] is Close);
    }
}

/// What one more message adds behind an inbox without a `Close`: the
/// worker forwards what it forwarded before and then what `forward` gives
/// for the new message, and comes to a `Close` only if that is one.
pub proof fn lemma_forwarded_push(sent: Seq<TimerControlMsgView>, msg: TimerControlMsgView)
    requires
        no_close(sent),
    ensures
        closes(sent.push(msg)) == (msg is Close),
        consumed(sent.push(msg)) == sent.len() + 1,
        forwarded(sent.push(msg)) == match forward(msg) {
            Some(out) => forwarded(sent).push(out),
            None => forwarded(sent),
        },
{
    let inbox = sent.push(msg);
    lemma_live_len_is(sent, sent.len() as int);
    if msg is Close {
        lemma_live_len_is(inbox, sent.len() as int);
    } else {
        lemma_live_len_is(inbox, inbox.len() as int);
    }
}

/// A worker, with its state and its channel into the content pipeline.
#[derive(Debug)]
pub struct TimerWorker {
    pub state: WorkerState,
    pub content_chan: Chan<ControlMsg>,
}

impl TimerWorker {
    /// A running worker that will forward on `content_chan`.
    pub fn new(content_chan: Chan<ControlMsg>) -> (worker: Self)
        ensures
            worker.state == WorkerState::Running,
            worker.content_chan == content_chan,
    {
        TimerWorker { state: WorkerState::Running, content_chan }
    }

    /// Whether the worker has stopped.
    pub fn is_terminated(&self) -> (stopped: bool)
        ensures
            stopped == (self.state == WorkerState::Terminated),
    {
        match self.state {
            WorkerState::Terminated => true,
            WorkerState::Running => false,
        }
    }

    /// Handles one message: makes the transition that `step` describes and
    /// sends what it yields, if anything, on the content channel.
    pub fn handle(&mut self, msg: TimerControlMsg)
        ensures
            final(self).state == step(old(self).state, msg@).0,
            final(self).content_chan@ == match step(old(self).state, msg@).1 {
                Some(out) => old(self).content_chan@.push(out),
                None => old(self).content_chan@,
            },
    {
        match self.state {
            WorkerState::Terminated => {},
            WorkerState::Running => match msg {
                TimerControlMsg::Close => {
                    self.state = WorkerState::Terminated;
                },
                TimerControlMsg::Fire(data) => {
                    self.content_chan.send(ControlMsg::Timer(data));
                },
                TimerControlMsg::TriggerExit => {
                    self.content_chan.send(ControlMsg::Exit);
                },
            },
        }
    }

    /// The receive loop: takes messages out of `inbox`, oldest first, and
    /// handles each, until the inbox is empty or a `Close` has stopped the
    /// worker. Whatever stands behind that `Close` stays in the inbox. A
    /// worker that has already stopped takes nothing.
    pub fn run(&mut self, inbox: &mut Chan<TimerControlMsg>)
        ensures
            old(self).state == WorkerState::Terminated ==> {
                &&& final(self).state == WorkerState::Terminated
                &&& final(self).content_chan@ == old(self).content_chan@
                &&& final(inbox)@ == old(inbox)@
            },
            old(self).state == WorkerState::Running ==> {
                &&& final(self).state == if closes(old(inbox)@) {
                    WorkerState::Terminated
                } else {
                    WorkerState::Running
                }
                &&& final(self).content_chan@ == old(self).content_chan@ + forwarded(
                    old(inbox)@,
                )
                &&& final(inbox)@ == old(inbox)@.skip(consumed(old(inbox)@) as int)
            },
    {
        if self.is_terminated() {
            return ;
        }
        let ghost queued = inbox@;
        let ghost sent = self.content_chan@;
        let ghost mut taken: int = 0;
        proof {
            lemma_live_len(queued);
        }
        while !self.is_terminated()
            invariant
                0 <= taken <= queued.len(),
                inbox@ == queued.skip(taken),
                self.state == WorkerState::Running ==> taken <= live_len(queued)
                    && self.content_chan@ == sent + Seq::new(
                    taken as nat,
                    |i: int| forward(queued[i])->0,
                ),
                self.state == WorkerState::Terminated ==> taken == live_len(queued) + 1
                    && self.content_chan@ == sent + forwarded(queued),
                live_len(queued) <= queued.len(),
                no_close(queued.take(live_len(queued) as int)),
                live_len(queued) < queued.len() ==> queued[live_len(queued) as int] is Close,
            ensures
                self.state == WorkerState::Running ==> taken == queued.len() && !closes(queued),
                self.state == WorkerState::Terminated ==> closes(queued),
                inbox@ == queued.skip(consumed(queued) as int),
                self.content_chan@ == sent + forwarded(queued),
            decreases inbox@.len(),
        {
            match inbox.recv() {
                None => {
                    break ;
                },
                Some(msg) => {
                    self.handle(msg);
                    proof {
                        if msg@ is Close && taken < live_len(queued) {
                            assert(queued.take(live_len(queued) as int)[taken] is Close);
                        }
                        taken = taken + 1;
                    }
                },
            }
        }
    }
}

} // verus!
