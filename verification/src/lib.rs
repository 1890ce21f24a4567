//! Client side of a relay-brokered SSH port forward: the wire messages, the
//! negotiation state machine and the bookkeeping of the forwarding process.

pub mod address;
pub mod codec;
pub mod error;
pub mod identity;
pub mod invariants;
pub mod message;
pub mod ports;
pub mod session;
pub mod text;
pub mod tunnel;
pub mod wire;
