//! Sans-I/O peer-to-peer protocol state machine pieces for a light client:
//! the event taxonomy, the effect queue that every sub-protocol writes to,
//! and the liveness (ping) manager.
//!
//! Nothing in this crate touches sockets or the wall clock. Time is read
//! from an injected [`time::Clock`], randomness from an injected generator,
//! and every effect is queued on an [`fsm::output::Outbox`] for the caller
//! to carry out.

pub mod bytes;
pub mod chain;
pub mod fsm;
pub mod net;
pub mod rng;
pub mod text;
pub mod time;
