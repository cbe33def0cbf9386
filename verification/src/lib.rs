//! Deferred callbacks and lifecycle signalling for one document window.

pub mod chan;
pub mod content;
pub mod laws;
pub mod timer;
pub mod value;
pub mod window;
pub mod worker;

pub use crate::chan::Chan;
pub use crate::content::ControlMsg;
pub use crate::timer::{DelayedSend, TimerControlMsg, TimerData};
pub use crate::value::JSVal;
pub use crate::window::Window;
pub use crate::worker::{TimerWorker, WorkerState};
