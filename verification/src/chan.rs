//! An ordered, one-way message queue: what one side has sent and the other
//! side has not yet received.

use std::collections::VecDeque;
use vstd::prelude::*;

verus! {

/// A channel between two single-threaded parties. Messages leave in the
/// order in which they were sent, and each leaves once.
///
/// Its view is the sequence of the messages in flight, oldest first, each
/// taken by its own view.
#[derive(Debug)]
pub struct Chan<T> {
    queue: VecDeque<T>,
}

impl<T: View> View for Chan<T> {
    type V = Seq<T::V>;

    closed spec fn view(&self) -> Seq<T::V> {
        self.queue@.map_values(|m: T| m@)
    }
}

impl<T: View> Chan<T> {
    /// A channel with nothing in flight.
    pub fn new() -> (chan: Self)
        ensures
            chan@ == Seq::<T::V>::empty(),
    {
        Chan { queue: VecDeque::new() }
    }

    /// Enqueues `msg` behind everything sent before it.
    pub fn send(&mut self, msg: T)
        ensures
            final(self)@ == old(self)@.push(msg@),
    {
        self.queue.push_back(msg);
    }

    /// Takes the oldest message in flight, if there is one.
    pub fn recv(&mut self) -> (msg: Option<T>)
        ensures
            old(self)@.len() == 0 ==> msg is None && final(self)@ == old(self)@,
            old(self)@.len() > 0 ==> msg is Some && msg->0@ == old(self)@[0] && final(self)@
                == old(self)@.drop_first(),
    {
        self.queue.pop_front()
    }

    /// The number of messages in flight.
    pub fn len(&self) -> (n: usize)
        ensures
            n == self@.len(),
    {
        self.queue.len()
    }

    /// Whether nothing is in flight.
    pub fn is_empty(&self) -> (empty: bool)
        ensures
            empty == (self@.len() == 0),
    {
        self.queue.len() == 0
    }
}

} // verus!
