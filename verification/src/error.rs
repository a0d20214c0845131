//! The error taxonomy of the transport.

use vstd::prelude::*;

verus! {

/// Every recoverable failure of the transport. Nothing is silently
/// swallowed: backend failures are propagated, and the two protocol-level
/// rejections carry the text needed to diagnose them.
#[derive(Debug)]
pub enum Error {
    /// A failure reported by the HTTP backend or while draining a stream.
    Io { message: String },
    /// The expected smart-protocol `Content-Type` header was absent: the
    /// server is assumed to speak the legacy dumb protocol, which this
    /// transport does not implement. Carries the header line that was
    /// expected.
    ProtocolMismatch { expected: String },
    /// The first advertised line did not equal the expected service
    /// announcement. Carries both the expected and the actual text.
    AnnouncementMismatch { expected: String, actual: String },
}

/// Converts a validation failure into the generic I/O-level error that the
/// deferred-validation body wrapper reports: a missing smart-protocol header
/// keeps its expected line as the message; everything else passes through.
pub fn io_wrapped(e: Error) -> (r: Error)
    ensures
        e matches Error::ProtocolMismatch { expected } ==> r matches Error::Io { message }
            && message == expected,
        !(e is ProtocolMismatch) ==> r == e,
{
    match e {
        Error::ProtocolMismatch { expected } => Error::Io { message: expected },
        other => other,
    }
}

} // verus!
