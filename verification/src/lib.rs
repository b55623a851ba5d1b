//! A verified model of an async terminal-input adapter.
//!
//! The adapter bridges a blocking, non-reentrant "read next input code" call
//! of a character-UI library to a cooperative scheduler: a process-wide,
//! lazily created read-only handle on the controlling terminal, and a
//! single-shot poller that suspends until the descriptor is readable and only
//! then permits the one blocking read.
//!
//! Every decision the adapter makes is verified here: when the terminal is
//! opened (exactly once), when an invocation suspends, when the one
//! underlying read may happen (only immediately after an observed-ready
//! poll), what is returned (the library's code, unmodified), and when the
//! descriptor is closed (exactly once). The system calls, the readiness
//! notifications and the terminal library's read itself are supplied by the
//! unverified program around this crate.

pub mod handle;
pub mod poller;
