//! What a script registers when it asks for a deferred call, and the
//! messages that carry it to the window's timer worker.

use crate::value::JSVal;
use vstd::prelude::*;

verus! {

/// The callback of a deferred call together with the arguments it was
/// registered with.
#[derive(Debug, PartialEq, Eq)]
pub struct TimerData {
    pub funval: JSVal,
    pub args: Vec<JSVal>,
}

/// A `TimerData` as a mathematical value.
pub struct TimerDataView {
    pub funval: JSVal,
    pub args: Seq<JSVal>,
}

impl View for TimerData {
    type V = TimerDataView;

    open spec fn view(&self) -> TimerDataView {
        TimerDataView { funval: self.funval, args: self.args@ }
    }
}

/// The registration that a native call with `argc` arguments in `argv`
/// describes: the callback stands first, the delay second, and the
/// callback's own arguments follow, in order.
pub open spec fn registration(argc: int, argv: Seq<JSVal>) -> TimerDataView
    recommends
        1 <= argv.len(),
        argc <= argv.len(),
{
    TimerDataView {
        funval: argv[0],
        args: if argc > 2 {
            argv.subrange(2, argc)
        } else {
            Seq::empty()
        },
    }
}

/// Captures the callback and its arguments out of the argument buffer of a
/// native call. The result owns copies: nothing of `argv` is borrowed once
/// the call has returned.
#[allow(non_snake_case)]
pub fn TimerData(argc: libc::c_uint, argv: &[JSVal]) -> (data: TimerData)
    requires
        1 <= argv@.len(),
        argc <= argv@.len(),
    ensures
        data@ == registration(argc as int, argv@),
{
    let mut args: Vec<JSVal> = Vec::new();
    let mut i: usize = 2;
    while i < argc as usize
        invariant
            argc <= argv@.len(),
            2 <= i,
            i <= argc || argc < 2,
            args@ == if argc > 2 {
                argv@.subrange(2, i as int)
            } else {
                Seq::empty()
            },
        decreases argc - i,
    {
        args.push(argv[i]);
        i += 1;
    }
    TimerData { funval: argv[0], args }
}

/// A message on the channel from a window to its timer worker.
#[derive(Debug, PartialEq, Eq)]
pub enum TimerControlMsg {
    /// A timer that was scheduled earlier has elapsed.
    Fire(TimerData),
    /// The window is being destroyed: the worker must stop.
    Close,
    /// The script asked to close the window: the content pipeline must be
    /// told to exit, and the worker goes on.
    TriggerExit,
}

/// A `TimerControlMsg` as a mathematical value.
pub enum TimerControlMsgView {
    Fire(TimerDataView),
    Close,
    TriggerExit,
}

impl View for TimerControlMsg {
    type V = TimerControlMsgView;

    open spec fn view(&self) -> TimerControlMsgView {
        match *self {
            TimerControlMsg::Fire(data) => TimerControlMsgView::Fire(data@),
            TimerControlMsg::Close => TimerControlMsgView::Close,
            TimerControlMsg::TriggerExit => TimerControlMsgView::TriggerExit,
        }
    }
}

/// The delay, in milliseconds, that a timer asked for with `timeout` is
/// scheduled with: a negative request counts as none.
pub open spec fn effective_delay(timeout: int) -> nat {
    if timeout < 0 {
        0
    } else {
        timeout as nat
    }
}

/// A request to the event loop's timer facility: deliver `msg` on the
/// window's timer channel, once, when `msecs` milliseconds have passed.
#[derive(Debug, PartialEq, Eq)]
pub struct DelayedSend {
    pub msecs: usize,
    pub msg: TimerControlMsg,
}

/// A `DelayedSend` as a mathematical value.
pub struct DelayedSendView {
    pub msecs: nat,
    pub msg: TimerControlMsgView,
}

impl View for DelayedSend {
    type V = DelayedSendView;

    open spec fn view(&self) -> DelayedSendView {
        DelayedSendView { msecs: self.msecs as nat, msg: self.msg@ }
    }
}

/// The request that scheduling a timer makes of the timer facility: after
/// the effective delay, one `Fire` with the registration that the native
/// call's arguments describe.
pub open spec fn scheduled(timeout: int, argc: int, argv: Seq<JSVal>) -> DelayedSendView {
    DelayedSendView {
        msecs: effective_delay(timeout),
        msg: TimerControlMsgView::Fire(registration(argc, argv)),
    }
}

} // verus!
