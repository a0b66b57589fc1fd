//! A finite sequence of items that is handed out one item at a time.

use vstd::prelude::*;
use std::collections::VecDeque;

verus! {

/// How far an [`Iter`] has come.
#[derive(Debug, Clone, Copy, PartialEq, Eq, Structural)]
pub enum StreamState {
    /// Nothing was asked of the stream yet.
    Unstarted,
    /// The stream was asked at least once and still has items to give.
    Producing,
    /// The stream was asked at least once and has given every item.
    Exhausted,
}

/// A stream over a fixed sequence of items. It gives each item once, in
/// order, and cannot be started again.
#[derive(Debug, Clone)]
pub struct Iter<T> {
    queue: VecDeque<T>,
    polled: bool,
}

impl<T> Iter<T> {
    /// The items that the stream has still to give, the next one first.
    pub closed spec fn remaining(&self) -> Seq<T> {
        self.queue@
    }

    /// Whether the stream was asked for an item before.
    pub closed spec fn polled(&self) -> bool {
        self.polled
    }

    /// How far the stream has come.
    pub open spec fn state(&self) -> StreamState {
        if !self.polled() {
            StreamState::Unstarted
        } else if self.remaining().len() > 0 {
            StreamState::Producing
        } else {
            StreamState::Exhausted
        }
    }

    /// Gives the next item, or `None` once every item was given. Asking an
    /// exhausted stream again gives `None` again.
    pub fn poll_next(&mut self) -> (item: Option<T>)
        ensures
            final(self).polled(),
            old(self).remaining().len() > 0 ==> item == Some(old(self).remaining()[0])
                && final(self).remaining() == old(self).remaining().drop_first(),
            old(self).remaining().len() == 0 ==> item is None && final(self).remaining()
                == old(self).remaining(),
    {
        self.polled = true;
        let item = self.queue.pop_front();
        proof {
            if old(self).remaining().len() > 0 {
                assert(self.queue@ =~= old(self).remaining().drop_first());
            } else {
                assert(self.queue@ =~= old(self).remaining());
            }
        }
        item
    }

    /// The bounds on the number of items that the stream has still to give:
    /// both are that number.
    pub fn size_hint(&self) -> (bounds: (usize, Option<usize>))
        ensures
            bounds.0 == self.remaining().len(),
            bounds.1 == Some(bounds.0),
    {
        let len = self.queue.len();
        (len, Some(len))
    }

    /// The state of the stream.
    pub fn current_state(&self) -> (state: StreamState)
        ensures
            state == self.state(),
    {
        if !self.polled {
            StreamState::Unstarted
        } else if self.queue.len() > 0 {
            StreamState::Producing
        } else {
            StreamState::Exhausted
        }
    }
}

/// The stream that gives the items of `items` in their order.
pub fn iter<T>(items: Vec<T>) -> (stream: Iter<T>)
    ensures
        stream.remaining() == items@,
        stream.state() == StreamState::Unstarted,
{
    let mut stack = items;
    let mut queue: VecDeque<T> = VecDeque::new();
    while stack.len() > 0
        invariant
            stack@ + queue@ == items@,
        decreases stack.len(),
    {
        let ghost before = stack@;
        let ghost queued = queue@;
        match stack.pop() {
            Some(item) => {
                queue.push_front(item);
                assert(stack@ + queue@ =~= before + queued);
            },
            None => {},
        }
    }
    assert(queue@ =~= stack@ + queue@);
    Iter { queue, polled: false }
}

} // verus!
