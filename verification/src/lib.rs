//! Custodian: rules for taking audio recordings out of a watched directory.
//!
//! The crate decides which files are recordings, what each one is called
//! where it is going, what a decoder's answers mean for the samples
//! collected, and in which order the file system is touched. It performs no
//! input or output itself: a driver reads, moves and subscribes, and hands
//! what happened back as plain values.

pub mod error;
pub mod config;
pub mod path;
pub mod format;
pub mod timestamp;
pub mod naming;
pub mod relocate;
pub mod job;
pub mod watch;
pub mod decode;
