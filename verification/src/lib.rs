//! An asynchronous bridge over a synchronous, non-blocking remote
//! file-system protocol.
//!
//! The underlying protocol session offers only synchronous calls that
//! either complete at once, fail with a terminal error, or signal
//! "would block".  This library holds the verified core of the bridge
//! that turns such a call into one cooperatively scheduled unit of
//! work: the per-turn decision rules, the error classification, the
//! directory-listing accumulation, and the open-flag constants.  The
//! asynchronous shell that owns the protocol session and the readiness
//! notifier drives these decisions from outside.
pub mod bridge;
pub mod errors;
pub mod listing;
pub mod session;
pub mod stat;
