//! Messages exchanged with the control server.

pub mod request;
