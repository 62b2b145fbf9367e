//! Registry protocol of a location-transparent actor runtime.
//!
//! The crate holds the decisions of both ends of the directory protocol and
//! leaves sockets, threads and timers to its caller.

pub mod client;
pub mod clock;
pub mod codec;
pub mod directory;
pub mod error;
pub mod heartbeat;
pub mod json;
pub mod laws;
pub mod messages;
pub mod text;
pub mod transport;
