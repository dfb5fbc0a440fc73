//! Settings of a network core: how much of the host it may use, how its egress
//! sockets are tuned, and how it resolves names over HTTPS.

pub mod doh;
pub mod environment;
pub mod sysprofile;
pub mod tcp_tuning;
pub mod text;
