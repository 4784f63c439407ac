//! Core logic of a cross-venue arbitrage bot for a single asset pair.
//!
//! The library holds the verified decision logic: validating and recording
//! price observations, detecting a profitable spread between venues, and the
//! state machine that orders the buy leg strictly before the sell leg. The
//! surrounding process (network clients, the async polling loop, logging)
//! drives these functions from outside.

pub mod bot;
mod clock;
pub mod detector;
pub mod executor;
pub mod history;
pub mod observation;
pub mod venue;
