//! What travels over a bus.

use vstd::prelude::*;
use futures::sync::mpsc::Receiver;
use crate::permission::Permission;

verus! {

/// The kinds of signal. Every link between two cores has one channel, a
/// lane, for each.
#[derive(Clone, Copy, Debug, PartialEq, Eq)]
pub enum Lane {
    Inception,
    Kill,
    Message,
    Stream,
}

/// The payload of one signal.
#[derive(Debug)]
#[verifier::reject_recursive_types(W)]
pub enum Data<W> {
    /// A request to open a new peer relationship.
    Incept,
    /// A request to tear an existing peer relationship down.
    Kill,
    /// A single data word.
    Message(W),
    /// The receiving end of a channel that carries many words out of band.
    Stream(Receiver<W>),
}

/// A payload together with where it comes from: the sender's bus identifier
/// and the sender's permission.
#[derive(Debug)]
#[verifier::reject_recursive_types(W)]
pub struct Transport<W> {
    pub bus: W,
    pub permission: Permission<W>,
    pub data: Data<W>,
}

impl<W> Data<W> {
    /// The lane that a payload of this kind travels on.
    pub open spec fn lane_of(&self) -> Lane {
        match self {
            Data::Incept => Lane::Inception,
            Data::Kill => Lane::Kill,
            Data::Message(_) => Lane::Message,
            Data::Stream(_) => Lane::Stream,
        }
    }

    /// The lane that a payload of this kind travels on.
    #[verifier::when_used_as_spec(lane_of)]
    pub fn lane(&self) -> (lane: Lane)
        ensures
            lane == self.lane_of(),
    {
        match self {
            Data::Incept => Lane::Inception,
            Data::Kill => Lane::Kill,
            Data::Message(_) => Lane::Message,
            Data::Stream(_) => Lane::Stream,
        }
    }
}

} // verus!
