//! A small persistent list of named directory aliases ("workspaces"):
//! resolving command-line words into a command, and applying that command
//! to the stored list of workspaces.

pub mod cmd;
pub mod store;
pub mod codec;
