//! The bridge from the platform's input events to the queues of the readers.
//!
//! A platform that pushes input reports hands each one to
//! [`InputBridge::publish`]. Every reader has a queue of its own without a
//! bound. The backend waits on the receiving side of that queue, and hands
//! what it received to the reader.

use vstd::prelude::*;
use vstd::slice::slice_to_vec;
use async_channel::Receiver;
use async_channel::Sender;
use crate::report::Report;

verus! {

/// The sending side of a channel of the crate `async_channel`.
#[verifier::external_type_specification]
#[verifier::external_body]
#[verifier::reject_recursive_types(T)]
pub struct ExSender<T>(Sender<T>);

/// The receiving side of a channel of the crate `async_channel`.
#[verifier::external_type_specification]
#[verifier::external_body]
#[verifier::reject_recursive_types(T)]
pub struct ExReceiver<T>(Receiver<T>);

/// `async_channel::unbounded`: a new channel without a bound, as its two
/// sides. Nothing is claimed of them.
#[verifier::external_body]
fn open_channel() -> (sides: (Sender<Report>, Receiver<Report>)) {
    async_channel::unbounded::<Report>()
}

/// `Sender::send` of `async_channel`, run to its end by
/// `pollster::block_on`: puts `report` at the back of the channel's queue,
/// and returns whether it did. It does not where the channel is closed.
/// Nothing is claimed of the result: whether the channel is closed depends
/// on the holder of the other side.
#[verifier::external_body]
fn send_report(queue: &Sender<Report>, report: Report) -> (sent: bool) {
    pollster::block_on(queue.send(report)).is_ok()
}

impl Report {
    /// A copy of this report.
    pub fn duplicate(&self) -> (copy: Report)
        ensures
            copy@ == self@,
    {
        Report { report_id: self.report_id, payload: slice_to_vec(self.payload.as_slice()) }
    }
}

/// The sending sides of the queues of all readers of one device.
pub struct InputBridge {
    queues: Vec<Sender<Report>>,
}

impl InputBridge {
    /// The number of queues that the bridge feeds.
    pub closed spec fn queue_count(&self) -> nat {
        self.queues@.len()
    }

    /// A bridge that feeds no queue yet.
    pub fn new() -> (bridge: InputBridge)
        ensures
            bridge.queue_count() == 0,
    {
        InputBridge { queues: Vec::new() }
    }

    /// The number of queues that the bridge feeds.
    pub fn len(&self) -> (count: usize)
        ensures
            count == self.queue_count(),
    {
        self.queues.len()
    }

    /// Adds a queue to the bridge and returns the side from which a reader
    /// takes its reports.
    pub fn attach(&mut self) -> (queue: Receiver<Report>)
        ensures
            final(self).queue_count() == old(self).queue_count() + 1,
    {
        let (sender, receiver) = open_channel();
        self.queues.push(sender);
        receiver
    }

    /// Puts a copy of `report` at the back of every queue, and returns the
    /// number of queues that took it. A queue whose reader is gone takes
    /// nothing.
    pub fn publish(&self, report: &Report) -> (delivered: usize)
        ensures
            exists|outcomes: Seq<bool>|
                outcomes.len() == self.queue_count() && delivered == #[trigger] taken(outcomes),
            delivered <= self.queue_count(),
    {
        let outcomes = self.send_to_each(report);
        count_taken(&outcomes)
    }

    /// Lets go of every queue. A reader then finds its queue closed once it
    /// has taken the reports that were published before.
    pub fn detach(&mut self)
        ensures
            final(self).queue_count() == 0,
    {
        self.queues.clear();
    }
}

impl InputBridge {
    /// Hands a copy of `report` to each queue in turn, and returns for each
    /// queue whether it took the copy.
    fn send_to_each(&self, report: &Report) -> (outcomes: Vec<bool>)
        ensures
            outcomes@.len() == self.queue_count(),
    {
        let mut outcomes: Vec<bool> = Vec::new();
        let mut i: usize = 0;
        while i < self.queues.len()
            invariant
                i <= self.queues@.len(),
                outcomes@.len() == i,
            decreases self.queues@.len() - i,
        {
            outcomes.push(send_report(&self.queues[i], report.duplicate()));
            i += 1;
        }
        outcomes
    }
}

/// The number of queues that took a report, where `outcomes` holds for each
/// queue whether it did. Whether a queue takes a report is for the holder of
/// its other side to decide.
pub open spec fn taken(outcomes: Seq<bool>) -> nat {
    outcomes.filter(|sent: bool| sent).len()
}

/// Counts the queues that took a report, where `outcomes` holds for each
/// queue whether it did.
pub fn count_taken(outcomes: &Vec<bool>) -> (count: usize)
    ensures
        count == taken(outcomes@),
        count <= outcomes@.len(),
{
    let mut count: usize = 0;
    let mut i: usize = 0;
    while i < outcomes.len()
        invariant
            i <= outcomes@.len(),
            count <= i,
            count == taken(outcomes@.take(i as int)),
        decreases outcomes@.len() - i,
    {
        proof {
            reveal(Seq::filter);
            assert(outcomes@.take(i + 1).drop_last() =~= outcomes@.take(i as int));
            assert(outcomes@.take(i + 1).last() == outcomes@[i as int]);
        }
        if outcomes[i] {
            count += 1;
        }
        i += 1;
    }
    assert(outcomes@.take(i as int) =~= outcomes@);
    count
}

} // verus!
