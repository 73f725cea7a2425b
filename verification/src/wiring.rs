//! The multiplexed endpoints of one core: a link per peer, a lane per kind of
//! signal.

use vstd::prelude::*;
use futures::sync::mpsc::{Receiver, Sender};
use crate::fault::Fatal;
use crate::port::{Inlet, Outlet};
use crate::signal::{Lane, Transport};

verus! {

/// The receiving ends of one link.
#[verifier::reject_recursive_types(W)]
struct InLink<W> {
    inception: Inlet<Transport<W>>,
    kill: Inlet<Transport<W>>,
    message: Inlet<Transport<W>>,
    stream: Inlet<Transport<W>>,
}

/// The sending ends of one link.
#[verifier::reject_recursive_types(W)]
struct OutLink<W> {
    inception: Outlet<Transport<W>>,
    kill: Outlet<Transport<W>>,
    message: Outlet<Transport<W>>,
    stream: Outlet<Transport<W>>,
}

/// The receiving ends of a core's links.
///
/// The peer with bus index `i` owns slot `i` of every lane. The four
/// endpoints of a link are wired in together, so every lane has a slot for
/// every peer.
#[verifier::reject_recursive_types(W)]
pub struct InBus<W> {
    links: Vec<InLink<W>>,
}

/// The sending ends of a core's links, laid out as in [`InBus`].
#[verifier::reject_recursive_types(W)]
pub struct OutBus<W> {
    links: Vec<OutLink<W>>,
}

impl<W> InLink<W> {
    spec fn inlet(self, lane: Lane) -> Inlet<Transport<W>> {
        match lane {
            Lane::Inception => self.inception,
            Lane::Kill => self.kill,
            Lane::Message => self.message,
            Lane::Stream => self.stream,
        }
    }
}

impl<W> OutLink<W> {
    spec fn outlet(self, lane: Lane) -> Outlet<Transport<W>> {
        match lane {
            Lane::Inception => self.inception,
            Lane::Kill => self.kill,
            Lane::Message => self.message,
            Lane::Stream => self.stream,
        }
    }
}

impl<W> InBus<W> {
    /// The number of peers wired in.
    pub closed spec fn peers(self) -> nat {
        self.links@.len()
    }

    /// Every signal this bus has taken off the channel of `peer` on `lane`,
    /// oldest first.
    pub closed spec fn taken(self, lane: Lane, peer: int) -> Seq<Transport<W>> {
        self.links@[peer].inlet(lane).taken()
    }

    /// How one poll of slot `peer` of `lane` that yields `item` takes the bus
    /// to `after`: a signal that is yielded has been taken off that channel,
    /// and nothing else has changed on any channel.
    pub open spec fn polled(
        self,
        lane: Lane,
        peer: int,
        item: Option<Transport<W>>,
        after: InBus<W>,
    ) -> bool {
        &&& after.peers() == self.peers()
        &&& after.taken(lane, peer) == match item {
            Some(signal) => self.taken(lane, peer).push(signal),
            None => self.taken(lane, peer),
        }
        &&& forall|other: Lane, p: int|
            0 <= p < self.peers() && (other != lane || p != peer) ==> #[trigger] after.taken(
                other,
                p,
            ) == self.taken(other, p)
    }

    /// A bus never has more peers than an index can count.
    pub proof fn lemma_peers_fit(self)
        ensures
            self.peers() <= usize::MAX,
    {
        assert(self.links@.len() == self.links.len());
    }

    /// An input bus with no peer.
    pub fn new() -> (bus: InBus<W>)
        ensures
            bus.peers() == 0,
    {
        InBus { links: Vec::new() }
    }

    /// Wires a new peer in: its four receivers become the next slot of their
    /// lanes. Returns the peer's bus index.
    pub fn connect(
        &mut self,
        inception: Receiver<Transport<W>>,
        kill: Receiver<Transport<W>>,
        message: Receiver<Transport<W>>,
        stream: Receiver<Transport<W>>,
    ) -> (peer: usize)
        ensures
            peer == old(self).peers(),
            final(self).peers() == old(self).peers() + 1,
            forall|lane: Lane| #[trigger]
                final(self).taken(lane, peer as int) == Seq::<Transport<W>>::empty(),
            forall|lane: Lane, p: int|
                0 <= p < old(self).peers() ==> #[trigger] final(self).taken(lane, p) == old(
                    self,
                ).taken(lane, p),
    {
        let peer = self.links.len();
        let link = InLink {
            inception: Inlet::new(inception),
            kill: Inlet::new(kill),
            message: Inlet::new(message),
            stream: Inlet::new(stream),
        };
        self.links.push(link);
        peer
    }

    /// The number of peers wired in.
    pub fn peer_count(&self) -> (n: usize)
        ensures
            n == self.peers(),
    {
        self.links.len()
    }

    /// Takes the oldest pending signal off the channel of `peer` on `lane`,
    /// if one is pending, and never waits for one.
    pub fn poll(&mut self, lane: Lane, peer: usize) -> (item: Option<Transport<W>>)
        requires
            peer < old(self).peers(),
        ensures
            old(self).polled(lane, peer as int, item, *final(self)),
    {
        match lane {
            Lane::Inception => self.links[peer].inception.poll(),
            Lane::Kill => self.links[peer].kill.poll(),
            Lane::Message => self.links[peer].message.poll(),
            Lane::Stream => self.links[peer].stream.poll(),
        }
    }
}

impl<W> OutBus<W> {
    /// The number of peers wired in.
    pub closed spec fn peers(self) -> nat {
        self.links@.len()
    }

    /// Whether the bus holds the sender handle of `peer` on `lane`.
    pub closed spec fn armed(self, lane: Lane, peer: int) -> bool {
        self.links@[peer].outlet(lane).armed()
    }

    /// Every signal this bus has handed to the channel of `peer` on `lane`
    /// and the channel has taken, oldest first.
    pub closed spec fn sent(self, lane: Lane, peer: int) -> Seq<Transport<W>> {
        self.links@[peer].outlet(lane).sent()
    }

    /// How one attempt to send `signal` to `peer` takes the bus to `after`
    /// and ends in `r`.
    ///
    /// The signal travels on the lane of its payload. On that channel the
    /// attempt goes as an attempt on a single-peer bus goes: without a sender
    /// handle nothing is handed over and the attempt fails with
    /// `SenderMissing`; with one, the channel takes the signal and the handle
    /// returns, or the channel is closed, the attempt fails with
    /// `ChannelClosed` and the handle is lost. No other channel changes.
    pub open spec fn delivers(
        self,
        peer: int,
        signal: Transport<W>,
        after: OutBus<W>,
        r: Result<(), Fatal>,
    ) -> bool {
        let lane = signal.data.lane_of();
        &&& after.peers() == self.peers()
        &&& if !self.armed(lane, peer) {
            &&& r == Err::<(), Fatal>(Fatal::SenderMissing)
            &&& !after.armed(lane, peer)
            &&& after.sent(lane, peer) == self.sent(lane, peer)
        } else if r is Ok {
            &&& after.armed(lane, peer)
            &&& after.sent(lane, peer) == self.sent(lane, peer).push(signal)
        } else {
            &&& r == Err::<(), Fatal>(Fatal::ChannelClosed)
            &&& !after.armed(lane, peer)
            &&& after.sent(lane, peer) == self.sent(lane, peer)
        }
        &&& forall|other: Lane, p: int|
            0 <= p < self.peers() && (other != lane || p != peer) ==> #[trigger] after.armed(
                other,
                p,
            ) == self.armed(other, p)
        &&& forall|other: Lane, p: int|
            0 <= p < self.peers() && (other != lane || p != peer) ==> #[trigger] after.sent(
                other,
                p,
            ) == self.sent(other, p)
    }

    /// An output bus with no peer.
    pub fn new() -> (bus: OutBus<W>)
        ensures
            bus.peers() == 0,
    {
        OutBus { links: Vec::new() }
    }

    /// Wires a new peer in: its four senders become the next slot of their
    /// lanes. Returns the peer's bus index.
    pub fn connect(
        &mut self,
        inception: Sender<Transport<W>>,
        kill: Sender<Transport<W>>,
        message: Sender<Transport<W>>,
        stream: Sender<Transport<W>>,
    ) -> (peer: usize)
        ensures
            peer == old(self).peers(),
            final(self).peers() == old(self).peers() + 1,
            forall|lane: Lane| #[trigger] final(self).armed(lane, peer as int),
            forall|lane: Lane| #[trigger]
                final(self).sent(lane, peer as int) == Seq::<Transport<W>>::empty(),
            forall|lane: Lane, p: int|
                0 <= p < old(self).peers() ==> #[trigger] final(self).armed(lane, p) == old(
                    self,
                ).armed(lane, p),
            forall|lane: Lane, p: int|
                0 <= p < old(self).peers() ==> #[trigger] final(self).sent(lane, p) == old(
                    self,
                ).sent(lane, p),
    {
        let peer = self.links.len();
        let link = OutLink {
            inception: Outlet::new(inception),
            kill: Outlet::new(kill),
            message: Outlet::new(message),
            stream: Outlet::new(stream),
        };
        self.links.push(link);
        peer
    }

    /// The number of peers wired in.
    pub fn peer_count(&self) -> (n: usize)
        ensures
            n == self.peers(),
    {
        self.links.len()
    }

    /// Hands `signal` to the channel of `peer` on the lane of its payload and
    /// waits until the channel has taken it.
    pub fn msg(&mut self, peer: usize, signal: Transport<W>) -> (r: Result<(), Fatal>)
        requires
            peer < old(self).peers(),
        ensures
            old(self).delivers(peer as int, signal, *final(self), r),
    {
        match signal.data.lane() {
            Lane::Inception => self.links[peer].inception.push(signal),
            Lane::Kill => self.links[peer].kill.push(signal),
            Lane::Message => self.links[peer].message.push(signal),
            Lane::Stream => self.links[peer].stream.push(signal),
        }
    }
}

} // verus!
