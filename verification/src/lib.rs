//! A verified model of a session/connection lifecycle manager: a background
//! supervisor that owns a live room connection, serializes lifecycle actions
//! from a capacity-one queue, relays session events back through a bounded
//! slot, and manages per-track video publishers with cooperative stop signals.

pub mod channel;
pub mod config;
pub mod frame;
pub mod handle;
pub mod laws;
pub mod mailbox;
pub mod publisher;
pub mod pump;
pub mod relay;
pub mod state;
pub mod stop;
pub mod supervisor;
pub mod token;
