//! An escrowed job marketplace, written as a deterministic state machine.
//!
//! The host runtime supplies the caller's identity, the transferred value,
//! the current time and the contract balance as plain arguments; the
//! machine decides, updates its state, and reports the payout that the host
//! has to carry out.
pub mod types;
pub mod text;
pub mod model;
pub mod freelancer;
pub mod laws;
