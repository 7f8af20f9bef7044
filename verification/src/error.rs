//! The ways in which decoding a cell can fail.

use vstd::prelude::*;

verus! {

/// A fatal decoding failure. Decoding stops at the first one.
#[derive(Clone, Copy, Debug, PartialEq, Eq, Structural)]
pub enum DecodeError {
    /// A record of a fixed size declares a length that the record cannot have.
    MalformedHeader,
    /// The cell was written by an encoder older than the oldest supported one.
    UnsupportedVersion,
    /// The server status says that the chart has expired.
    ChartExpired,
    /// The server status says that the signature or the decryption failed.
    SignatureFailure,
    /// The stream ends inside a record, or a record ends inside a field.
    TruncatedStream,
    /// A run of fixed-size elements does not fill its payload evenly.
    SizeMismatch,
}

impl DecodeError {
    /// A short description for diagnostics.
    pub fn message(&self) -> (text: &'static str)
        ensures
            text@ == self.spec_message()@,
    {
        match self {
            DecodeError::MalformedHeader => "Failed to parse header",
            DecodeError::UnsupportedVersion => "Unsupported Version",
            DecodeError::ChartExpired => "Chart expired",
            DecodeError::SignatureFailure => "Signature failure",
            DecodeError::TruncatedStream => "Truncated stream",
            DecodeError::SizeMismatch => "Size mismatch",
        }
    }

    pub open spec fn spec_message(&self) -> &'static str {
        match self {
            DecodeError::MalformedHeader => "Failed to parse header",
            DecodeError::UnsupportedVersion => "Unsupported Version",
            DecodeError::ChartExpired => "Chart expired",
            DecodeError::SignatureFailure => "Signature failure",
            DecodeError::TruncatedStream => "Truncated stream",
            DecodeError::SizeMismatch => "Size mismatch",
        }
    }
}

} // verus!
