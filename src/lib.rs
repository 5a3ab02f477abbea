//! An in-memory matchmaking relay: clients pick a display name, look up a
//! peer by name, and then have their text forwarded to that peer's channel.

pub mod error;
pub mod registry;
pub mod session;
pub mod text;
