//! The fatal conditions of the bus.

use vstd::prelude::*;

verus! {

/// A condition that ends a core's execution: a wiring or programming error of
/// the host, never an ordinary outcome such as a rejected signal or an empty
/// poll.
#[derive(Clone, Copy, Debug, PartialEq, Eq)]
pub enum Fatal {
    /// A send was attempted on a bus whose sender handle had been consumed and
    /// not put back.
    SenderMissing,
    /// The channel refused the send: its receiving end is gone.
    ChannelClosed,
    /// A peer index does not fit the word type: more peers are wired than
    /// bus identifiers exist.
    PeerOverflow,
}

impl Fatal {
    /// The text that describes the fault.
    pub open spec fn text(self) -> Seq<char> {
        match self {
            Fatal::SenderMissing => "error: uarc-emu::Bus::sender in invalid state"@,
            Fatal::ChannelClosed => "error: uarc-emu::Bus::msg() failed to send word"@,
            Fatal::PeerOverflow => {
                "error: uarc-emu::Uarc::poll_inception() peer index out of range"@
            },
        }
    }

    /// The text to abort a core with.
    pub fn message(self) -> (text: &'static str)
        ensures
            text@ == self.text(),
    {
        match self {
            Fatal::SenderMissing => "error: uarc-emu::Bus::sender in invalid state",
            Fatal::ChannelClosed => "error: uarc-emu::Bus::msg() failed to send word",
            Fatal::PeerOverflow => {
                "error: uarc-emu::Uarc::poll_inception() peer index out of range"
            },
        }
    }
}

} // verus!
