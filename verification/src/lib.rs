//! The lifecycle of a network tunnel that forwards a local TCP port to a
//! remote destination through an `ssh` child process.
//!
//! The library performs no I/O. Every operation is a step function from a
//! state and an event to the next state and the action that the caller is
//! to perform; the caller performs it and hands back the event that tells
//! how it ended.
//!
//! - [`tunnel`] holds the driver, which puts a tunnel's operations in order
//!   and decides the result of the whole run.
//! - [`sshforwarding`] holds the forwarding tunnel: its configuration, the
//!   command line that it has spawned, and its three operations.
//! - [`diagnostics`] reads the lines that the transport writes.
//! - [`interface`] holds what a caller hands in to have a tunnel made.
//! - [`errors`] holds the failures, and [`text`] the helpers on text.

pub mod diagnostics;
pub mod errors;
pub mod interface;
pub mod sshforwarding;
pub mod text;
pub mod tunnel;
