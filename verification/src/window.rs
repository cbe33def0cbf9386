//! The window as scripts see it: it schedules deferred calls, asks the
//! content pipeline to exit, and tells its timer worker when it goes away.

use crate::chan::Chan;
use crate::content::ControlMsg;
use crate::timer::{scheduled, DelayedSend, TimerControlMsg, TimerControlMsgView, TimerData};
use crate::value::JSVal;
use crate::worker::{no_close, TimerWorker, WorkerState};
use vstd::prelude::*;

verus! {

/// A document window.
///
/// `timer_chan` is the window's end of the channel to its timer worker; the
/// window is the only sender on it. The other three fields are carried for
/// the embedder and never read here: the channel on which DOM events are
/// published, a reference to the content pipeline that confers no ownership,
/// and the scripting engine's object for this window, once the embedder has
/// made one.
#[derive(Debug)]
pub struct Window<E, C, W> {
    pub timer_chan: Chan<TimerControlMsg>,
    pub dom_event_chan: E,
    pub content_task: C,
    pub wrapper: Option<W>,
}

/// What is in flight on a timer channel once the window has asked to be
/// closed: one more `TriggerExit`, behind all that was sent before.
pub open spec fn after_close(sent: Seq<TimerControlMsgView>) -> Seq<TimerControlMsgView> {
    sent.push(TimerControlMsgView::TriggerExit)
}

/// What is in flight on a timer channel once the window has been torn
/// down: one `Close`, behind all that was sent before.
pub open spec fn after_finalize(sent: Seq<TimerControlMsgView>) -> Seq<TimerControlMsgView> {
    sent.push(TimerControlMsgView::Close)
}

/// The text that an alert with message `s` emits.
pub open spec fn alert_text(s: Seq<char>) -> Seq<char> {
    "ALERT: "@ + s
}

impl<E, C, W> Window<E, C, W> {
    /// A live window has not told its worker to stop: no `Close` is in
    /// flight on its timer channel.
    pub open spec fn wf(&self) -> bool {
        no_close(self.timer_chan@)
    }

    /// The line that an alert with message `s` puts on the diagnostic sink.
    /// The caller emits it.
    pub fn alert(&self, s: &str) -> (line: String)
        ensures
            line@ == alert_text(s@),
    {
        String::from_str("ALERT: ").concat(s)
    }

    /// Asks the content pipeline, by way of the timer worker, to shut the
    /// window's script context down. The worker and the window live on, and
    /// every call sends another request.
    pub fn close(&mut self)
        ensures
            final(self).timer_chan@ == after_close(old(self).timer_chan@),
            final(self).dom_event_chan == old(self).dom_event_chan,
            final(self).content_task == old(self).content_task,
            final(self).wrapper == old(self).wrapper,
            old(self).wf() ==> final(self).wf(),
    {
        self.timer_chan.send(TimerControlMsg::TriggerExit);
    }

    /// Schedules a deferred call. `timeout` is the delay asked for, in
    /// milliseconds, and `argv` holds the native call's `argc` arguments:
    /// the callback, the delay, then the callback's own arguments.
    ///
    /// Nothing is sent on the timer channel now. The result is the one
    /// request to hand to the timer facility, which delivers its message on
    /// the timer channel when the delay has passed.
    #[allow(non_snake_case)]
    pub fn setTimeout(&self, timeout: isize, argc: libc::c_uint, argv: &[JSVal]) -> (send:
        DelayedSend)
        requires
            1 <= argv@.len(),
            argc <= argv@.len(),
        ensures
            send@ == scheduled(timeout as int, argc as int, argv@),
            timeout < 0 ==> send.msecs == 0,
    {
        let msecs: usize = if timeout < 0 {
            0
        } else {
            timeout as usize
        };
        DelayedSend { msecs, msg: TimerControlMsg::Fire(TimerData(argc, argv)) }
    }

    /// Tears the window down: sends `Close`, the last message this window
    /// sends, and only then lets go of the timer channel, which is handed
    /// back with everything still in flight on it.
    pub fn finalize(self) -> (released: Chan<TimerControlMsg>)
        ensures
            released@ == after_finalize(self.timer_chan@),
    {
        let mut timer_chan = self.timer_chan;
        timer_chan.send(TimerControlMsg::Close);
        timer_chan
    }
}

/// Makes a window and the timer worker that serves it. The worker starts
/// out running, with an empty inbox, and forwards on `content_chan`; the
/// window starts out with nothing sent and without a scripting object.
#[allow(non_snake_case)]
pub fn Window<E, C, W>(content_chan: Chan<ControlMsg>, dom_event_chan: E, content_task: C) -> (made:
    (Window<E, C, W>, TimerWorker))
    ensures
        made.0.timer_chan@ == Seq::<TimerControlMsgView>::empty(),
        made.0.dom_event_chan == dom_event_chan,
        made.0.content_task == content_task,
        made.0.wrapper is None,
        made.0.wf(),
        made.1.state == WorkerState::Running,
        made.1.content_chan == content_chan,
{
    let win = Window { timer_chan: Chan::new(), dom_event_chan, content_task, wrapper: None };
    (win, TimerWorker::new(content_chan))
}

} // verus!
