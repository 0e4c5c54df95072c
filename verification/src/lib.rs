//! Verified core of a shared-memory synchronous mailbox.
//!
//! Two processes attached to one named memory region exchange a single
//! in-flight message through a strictly alternating two-phase handshake:
//! an atomic state word grants the writer or the reader exclusive access
//! to the remaining bytes of the region, and a busy wait with an optional
//! deadline polls for the turn. Payloads travel in a length-prefixed
//! envelope so the same framing works over any transport.

pub mod channel;
pub mod envelope;
pub mod ping;
pub mod region;
pub mod spin;
pub mod state;
