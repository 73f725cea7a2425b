//! The single-peer sender: one channel to one core.

use vstd::prelude::*;
use futures::sync::mpsc::{Receiver, SendError, Sender};
use crate::fault::Fatal;
use crate::port::Outlet;
use crate::signal::Data;

verus! {

/// Wraps the sending end of a channel to one peer.
///
/// A send consumes the sender handle and the channel hands it back when the
/// send has completed. Between the two, and for good after a failed send, the
/// bus holds no handle.
#[verifier::reject_recursive_types(W)]
pub struct Bus<W> {
    outlet: Outlet<Data<W>>,
}

impl<W> Bus<W> {
    /// The sender handle that the bus holds, if it holds one.
    pub closed spec fn handle(self) -> Option<Sender<Data<W>>> {
        self.outlet.handle()
    }

    /// Everything the bus has handed to its channel and the channel has
    /// taken, oldest first.
    pub closed spec fn sent(self) -> Seq<Data<W>> {
        self.outlet.sent()
    }

    /// Whether the bus holds its sender handle.
    pub open spec fn armed(self) -> bool {
        self.handle() is Some
    }

    /// How one attempt to send `data` takes the bus to `after` and ends in
    /// `r`.
    ///
    /// Without a sender handle nothing is handed over and the attempt fails
    /// with `SenderMissing`. With one, the handle is consumed and `data` is
    /// handed to the channel: either the channel takes it and the bus holds a
    /// handle again, or the channel is closed, the attempt fails with
    /// `ChannelClosed` and the bus is left without a handle.
    pub open spec fn delivers(self, data: Data<W>, after: Bus<W>, r: Result<(), Fatal>) -> bool {
        if !self.armed() {
            &&& r == Err::<(), Fatal>(Fatal::SenderMissing)
            &&& !after.armed()
            &&& after.sent() == self.sent()
        } else if r is Ok {
            &&& after.armed()
            &&& after.sent() == self.sent().push(data)
        } else {
            &&& r == Err::<(), Fatal>(Fatal::ChannelClosed)
            &&& !after.armed()
            &&& after.sent() == self.sent()
        }
    }

    /// A bus that sends through `sender` and has sent nothing yet.
    pub fn new(sender: Sender<Data<W>>) -> (bus: Bus<W>)
        ensures
            bus.handle() == Some(sender),
            bus.sent() == Seq::<Data<W>>::empty(),
    {
        Bus { outlet: Outlet::new(sender) }
    }

    /// Takes what a completed send gave back: the handle returns to the bus,
    /// or the bus stays as it is and the send has failed for good.
    pub fn rearm(&mut self, outcome: Result<Sender<Data<W>>, SendError<Data<W>>>) -> (r: Result<
        (),
        Fatal,
    >)
        ensures
            final(self).sent() == old(self).sent(),
            match outcome {
                Ok(sender) => r == Ok::<(), Fatal>(()) && final(self).handle() == Some(sender),
                Err(_) => {
                    &&& r == Err::<(), Fatal>(Fatal::ChannelClosed)
                    &&& final(self).handle() == old(self).handle()
                },
            },
    {
        self.outlet.settle(outcome)
    }

    /// Hands `data` to the channel and waits until the channel has taken it.
    pub fn msg(&mut self, data: Data<W>) -> (r: Result<(), Fatal>)
        ensures
            old(self).delivers(data, *final(self), r),
    {
        self.outlet.push(data)
    }

    /// Sends a single data word.
    pub fn send(&mut self, word: W) -> (r: Result<(), Fatal>)
        ensures
            old(self).delivers(Data::Message(word), *final(self), r),
    {
        self.msg(Data::Message(word))
    }

    /// Sends the receiving end of a stream channel.
    pub fn stream(&mut self, receiver: Receiver<W>) -> (r: Result<(), Fatal>)
        ensures
            old(self).delivers(Data::Stream(receiver), *final(self), r),
    {
        self.msg(Data::Stream(receiver))
    }
}

/// After a send has failed the bus holds no handle, so every later attempt
/// fails with `SenderMissing` and hands nothing to the channel.
pub proof fn lemma_no_send_after_failure<W>(
    before: Bus<W>,
    first: Data<W>,
    between: Bus<W>,
    failure: Result<(), Fatal>,
    next: Data<W>,
    after: Bus<W>,
    r: Result<(), Fatal>,
)
    requires
        before.delivers(first, between, failure),
        failure is Err,
        between.delivers(next, after, r),
    ensures
        r == Err::<(), Fatal>(Fatal::SenderMissing),
        !after.armed(),
        after.sent() == before.sent(),
{
}

} // verus!
