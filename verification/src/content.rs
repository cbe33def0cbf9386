//! The notifications that reach the content pipeline, which alone runs
//! script for a window and shuts its script context down.

use crate::timer::{TimerData, TimerDataView};
use vstd::prelude::*;

verus! {

/// A message on the channel into the content pipeline.
#[derive(Debug, PartialEq, Eq)]
pub enum ControlMsg {
    /// Call the captured callback with the captured arguments, now.
    Timer(TimerData),
    /// Begin to shut the window's script context down.
    Exit,
}

/// A `ControlMsg` as a mathematical value.
pub enum ControlMsgView {
    Timer(TimerDataView),
    Exit,
}

impl View for ControlMsg {
    type V = ControlMsgView;

    open spec fn view(&self) -> ControlMsgView {
        match *self {
            ControlMsg::Timer(data) => ControlMsgView::Timer(data@),
            ControlMsg::Exit => ControlMsgView::Exit,
        }
    }
}

} // verus!
