//! Gate just-in-time (JIT) inbound-channel invoice creation on a node's
//! initial synchronization milestones.
//!
//! A lightning node that obtains inbound liquidity through a trusted
//! liquidity provider must not request a payment invoice before it has a
//! consistent view of the chain and of the gossip graph. This crate tracks
//! the two synchronization milestones as they arrive on an event stream,
//! and only once both have been observed does it let the caller issue a
//! single invoice request, whose outcome it records in a small state
//! machine with two terminal states.

pub mod coordinator;
pub mod events;
pub mod stream;
