//! Relay of job notifications between a chat channel and the local desktop
//! notification service: the registry of operators, the rules of the chat
//! commands, the check of system credentials and the resolution of a
//! notification to its recipient.
//!
//! Every function here works on plain values. Reading files, talking to the
//! message bus and to the chat service are the caller's business.

pub mod notify;
pub mod slurm_bot;
pub mod statics;
pub mod text;
