//! A model of a small WireGuard mesh: one router and a set of client
//! endpoints, from which the `[Interface]` and `[Peer]` configuration blocks
//! of each participant are derived.

pub mod text;
pub mod address;
pub mod addrport;
pub mod endpoint;
pub mod configuration;
