//! Message-dispatch core of a remote administration agent.
//!
//! A control server sends envelopes that each ask for one action. This crate
//! decodes such an envelope, runs the action inside a session that numbers
//! its replies, and closes the exchange with exactly one status envelope.
//! Nothing here performs I/O: a session records the envelopes it hands over
//! for sending, oldest first, and the caller delivers them.

pub mod action;
pub mod comms;
pub mod io;
pub mod proto;
pub mod session;
