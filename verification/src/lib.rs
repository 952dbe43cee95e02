//! Process-control core of a command-line debugger for a POSIX-like OS.
//!
//! The library creates or attaches to a traced target process, advances its
//! execution, tracks its run state, and sequences the OS-level cleanup that
//! must happen when a debugging session ends.  Failures that occur inside a
//! not-yet-running child are ferried back to the parent through a bounded
//! error channel with a verified codec.
//!
//! The kernel-facing calls (trace requests, signals, blocking waits) are made
//! through small trusted wrappers around the `nix` crate; everything decided
//! around those calls is verified.  Process duplication and the raw pipe I/O
//! of the launch protocol cannot be expressed here and live with the caller,
//! which drives the verified phases of the protocol.

pub mod channel;
pub mod command;
pub mod error;
pub mod process;
