//! A simulated interconnect between emulated hardware cores.
//!
//! Cores exchange control and data signals over channels. Every signal
//! carries the sender's [`Permission`], and a core accepts a control signal
//! only where its own policy grants the sender that privilege.
//!
//! - [`word`]: the unsigned integers that serve as bus words.
//! - [`permission`]: capability descriptors and the privilege check.
//! - [`signal`]: the payloads, their lanes, and the transport that carries
//!   a payload with its origin.
//! - [`fault`]: the conditions that end a core.
//! - [`channel`]: the channel endpoints of the `futures` crate and the two
//!   operations performed on them.
//! - [`bus`]: the sender to a single peer.
//! - [`wiring`]: the multiplexed endpoints of a core, one link per peer.
//! - [`scan`]: what the scan for inception requests does.
//! - [`uarc`]: the contract of a core.

pub mod bus;
pub mod channel;
pub mod fault;
pub mod permission;
mod port;
pub mod scan;
pub mod signal;
pub mod uarc;
pub mod wiring;
pub mod word;

pub use bus::Bus;
pub use fault::Fatal;
pub use permission::Permission;
pub use scan::{bus_id, screen_inception};
pub use signal::{Data, Lane, Transport};
pub use uarc::Uarc;
pub use wiring::{InBus, OutBus};
pub use word::Word;
