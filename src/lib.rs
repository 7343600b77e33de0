//! Update checking and installation logic for a game launcher.
//!
//! The library decides what a release-metadata response means, plans the
//! extraction of an update archive, and tracks the launcher's state. Network
//! and filesystem work is left to the caller.
pub mod text;
pub mod release;
pub mod archive;
pub mod launcher;
