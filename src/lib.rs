//! Playback session controller for a remote music service: device tracking,
//! playback snapshots, command routing and seek arithmetic, all verified.
//! Talking to the service, reading input and printing are left to the caller.

pub mod seek;
pub mod text;
pub mod device;
pub mod snapshot;
pub mod command;
pub mod outcome;
pub mod catalog;
pub mod session;
