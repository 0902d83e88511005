//! The chat side of the relay: the registry, the check of credentials and
//! the commands that change the registry.

pub mod bot;
pub mod credentials;
pub mod storage;
