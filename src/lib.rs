//! A time-locked escrow that holds one native-token deposit, can stake it
//! with a validator, and releases it to its owner once the unlock time has
//! passed.
//!
//! The library is the contract's state machine: every operation takes the
//! stored configuration and the facts of the current call, and returns
//! either the new configuration with the outgoing intents, or an error that
//! leaves the configuration untouched.
pub mod contract;
pub mod lifecycle;
pub mod msg;
pub mod state;
