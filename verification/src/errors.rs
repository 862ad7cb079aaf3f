//! The error values the bridge classifies and surfaces.
//!
//! A protocol call fails with a coded error; one reserved code means
//! "would block" (retry once the transport is ready) and one reserved
//! code means "no more directory entries".  Streaming reads and writes
//! fail with a transport error whose only classified aspect is whether
//! it is the would-block condition.

use vstd::prelude::*;

verus! {

/// The session error code the protocol layer uses for "would block":
/// the transport cannot complete the call yet and it should be retried
/// once the transport is ready.
pub const WOULD_BLOCK_CODE: i32 = -37;

/// The session error code the directory-read call uses for "no more
/// entries".  Only the directory-listing loop reinterprets it as a
/// successful end of sequence; everywhere else it stays an error.
pub const NO_MORE_ENTRIES_CODE: i32 = -16;

/// A terminal error of the protocol layer: a code and a message.
///
/// Negative codes are session-level codes; non-negative codes come
/// from the remote file-system subsystem.  The two reserved codes
/// above are both session-level, hence negative.
#[derive(Clone, Debug, PartialEq, Eq)]
pub struct ProtoError {
    /// The protocol error code.
    pub code: i32,
    /// The protocol layer's descriptive message.
    pub msg: String,
}

/// Relies on ssh2's classification of session error codes:
/// `ssh2::Error::from_errno` builds the error carrying the given
/// session code for any input, and `From<ssh2::Error> for
/// std::io::Error` maps exactly the session code for "operation would
/// block" to `std::io::ErrorKind::WouldBlock`.
#[verifier::external_body]
fn errno_is_would_block(code: i32) -> (r: bool)
    ensures
        r == (code == WOULD_BLOCK_CODE),
{
    let err = ssh2::Error::from_errno(ssh2::ErrorCode::Session(code));
    std::io::Error::from(err).kind() == std::io::ErrorKind::WouldBlock
}

/// Whether a transport error found during streaming input or output is
/// the would-block condition.
#[derive(Clone, Debug, PartialEq, Eq)]
pub enum StreamErrorKind {
    /// The transport cannot take or give bytes yet; retry on readiness.
    WouldBlock,
    /// Any other transport failure; terminal for the streaming call.
    Other,
}

/// A transport error found during a streaming read, write or flush.
#[derive(Clone, Debug, PartialEq, Eq)]
pub struct StreamError {
    /// Whether this is the would-block condition.
    pub kind: StreamErrorKind,
    /// The transport's descriptive message.
    pub msg: String,
}

/// The unified error a bridged operation surfaces to its caller.
#[derive(Clone, Debug, PartialEq, Eq)]
pub enum SftpError {
    /// A terminal protocol error, propagated verbatim.
    Protocol(ProtoError),
    /// Registering for a readiness wakeup failed.
    Notifier(String),
    /// The call signalled would-block but no readiness notifier is
    /// attached, so there is no way to learn when to retry: a
    /// configuration error, surfaced rather than busy-looping.
    NotifierAbsent,
}

impl ProtoError {
    /// Whether this error is the transient would-block signal, as the
    /// protocol layer itself classifies it.
    pub fn is_would_block(&self) -> (r: bool)
        ensures
            r == (self.code == WOULD_BLOCK_CODE),
    {
        errno_is_would_block(self.code)
    }

    /// Whether this error is the reserved end-of-directory signal.
    pub fn is_no_more_entries(&self) -> (r: bool)
        ensures
            r == (self.code == NO_MORE_ENTRIES_CODE),
    {
        self.code == NO_MORE_ENTRIES_CODE
    }
}

} // verus!
