//! One end of one channel, with an account of what has passed through it.

use vstd::prelude::*;
use futures::sync::mpsc::{Receiver, SendError, Sender};
use crate::channel::{poll_ready, send_blocking};
use crate::fault::Fatal;

verus! {

/// The sending end of a channel.
///
/// A send consumes the sender handle and the channel hands it back when the
/// send has completed. Between the two, and for good after a failed send, the
/// outlet holds no handle.
#[verifier::reject_recursive_types(T)]
pub struct Outlet<T> {
    sender: Option<Sender<T>>,
    sent: Ghost<Seq<T>>,
}

/// The receiving end of a channel.
#[verifier::reject_recursive_types(T)]
pub struct Inlet<T> {
    receiver: Receiver<T>,
    taken: Ghost<Seq<T>>,
}

impl<T> Outlet<T> {
    /// The sender handle that the outlet holds, if it holds one.
    pub closed spec fn handle(self) -> Option<Sender<T>> {
        self.sender
    }

    /// Every item the outlet has handed to its channel and the channel has
    /// taken, oldest first.
    pub closed spec fn sent(self) -> Seq<T> {
        self.sent@
    }

    /// Whether the outlet holds its sender handle.
    pub open spec fn armed(self) -> bool {
        self.handle() is Some
    }

    /// How one attempt to send `item` takes the outlet to `after` and ends in
    /// `r`.
    ///
    /// Without a sender handle nothing is handed over and the attempt fails
    /// with `SenderMissing`. With one, the handle is consumed and `item` is
    /// handed to the channel: either the channel takes it and the outlet
    /// holds a handle again, or the channel is closed, the attempt fails with
    /// `ChannelClosed` and the outlet is left without a handle.
    pub open spec fn delivers(self, item: T, after: Outlet<T>, r: Result<(), Fatal>) -> bool {
        if !self.armed() {
            &&& r == Err::<(), Fatal>(Fatal::SenderMissing)
            &&& !after.armed()
            &&& after.sent() == self.sent()
        } else if r is Ok {
            &&& after.armed()
            &&& after.sent() == self.sent().push(item)
        } else {
            &&& r == Err::<(), Fatal>(Fatal::ChannelClosed)
            &&& !after.armed()
            &&& after.sent() == self.sent()
        }
    }

    /// An outlet that sends through `sender` and has sent nothing yet.
    pub fn new(sender: Sender<T>) -> (outlet: Outlet<T>)
        ensures
            outlet.handle() == Some(sender),
            outlet.sent() == Seq::<T>::empty(),
    {
        Outlet { sender: Some(sender), sent: Ghost(Seq::empty()) }
    }

    /// Takes what a completed send gave back: the handle returns to the
    /// outlet, or the outlet stays as it is and the send has failed for good.
    pub fn settle(&mut self, outcome: Result<Sender<T>, SendError<T>>) -> (r: Result<(), Fatal>)
        ensures
            final(self).sent() == old(self).sent(),
            match outcome {
                Ok(sender) => r == Ok::<(), Fatal>(()) && final(self).handle() == Some(sender),
                Err(_) => {
                    &&& r == Err::<(), Fatal>(Fatal::ChannelClosed)
                    &&& final(self).handle() == old(self).handle()
                },
            },
    {
        match outcome {
            Ok(sender) => {
                self.sender = Some(sender);
                Ok(())
            },
            Err(_) => Err(Fatal::ChannelClosed),
        }
    }

    /// Hands `item` to the channel and waits until the channel has taken it.
    pub fn push(&mut self, item: T) -> (r: Result<(), Fatal>)
        ensures
            old(self).delivers(item, *final(self), r),
    {
        let ghost handed = item;
        match self.sender.take() {
            None => Err(Fatal::SenderMissing),
            Some(sender) => {
                let outcome = send_blocking(sender, item);
                let r = self.settle(outcome);
                if r.is_ok() {
                    self.sent = Ghost(self.sent@.push(handed));
                }
                r
            },
        }
    }
}

impl<T> Inlet<T> {
    /// Every item the inlet has taken off its channel, oldest first.
    pub closed spec fn taken(self) -> Seq<T> {
        self.taken@
    }

    /// How one poll that yields `item` takes the inlet to `after`: an item
    /// that is yielded has been taken off the channel, and nothing else has.
    pub open spec fn yields(self, item: Option<T>, after: Inlet<T>) -> bool {
        after.taken() == match item {
            Some(taken) => self.taken().push(taken),
            None => self.taken(),
        }
    }

    /// An inlet that receives through `receiver` and has taken nothing yet.
    pub fn new(receiver: Receiver<T>) -> (inlet: Inlet<T>)
        ensures
            inlet.taken() == Seq::<T>::empty(),
    {
        Inlet { receiver, taken: Ghost(Seq::empty()) }
    }

    /// Takes the oldest pending item off the channel, if one is pending, and
    /// never waits for one.
    pub fn poll(&mut self) -> (item: Option<T>)
        ensures
            old(self).yields(item, *final(self)),
    {
        let item = poll_ready(&mut self.receiver);
        if let Some(taken) = &item {
            self.taken = Ghost(self.taken@.push(*taken));
        }
        item
    }
}

} // verus!
