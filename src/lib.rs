//! Desktop-client MFA login: the two-phase handshake that authorizes a
//! WireGuard device for a VPN location after a second factor is proven.

pub mod authz;
pub mod digits;
pub mod events;
pub mod groups;
pub mod headers;
pub mod laws;
pub mod mail;
pub mod message;
pub mod model;
pub mod server;
pub mod sessions;
pub mod token;
