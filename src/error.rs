//! Error taxonomy of the transport layer.
use bytecodec::Error as CodecFailure;
use vstd::prelude::*;

verus! {

/// Possible error kinds.
#[derive(Debug, Clone, Copy, PartialEq, Eq, Structural, Hash)]
pub enum ErrorKind {
    /// Encoding/decoding error.
    CodecError,
    /// I/O error.
    IoError,
    /// Input is invalid: the caller broke a transport contract.
    InvalidInput,
    /// Other error: an internal invariant was violated.
    Other,
}

impl ErrorKind {
    /// The kind that a codec failure maps to: an I/O failure that surfaced
    /// through the codec stays an I/O error, everything else is a codec error.
    pub fn of_codec_failure(caused_by_io: bool) -> (r: ErrorKind)
        ensures
            r == (if caused_by_io { ErrorKind::IoError } else { ErrorKind::CodecError }),
    {
        if caused_by_io {
            ErrorKind::IoError
        } else {
            ErrorKind::CodecError
        }
    }
}

/// This crate specific error type: a kind and a human readable reason.
#[derive(Debug, Clone)]
pub struct Error {
    kind: ErrorKind,
    reason: String,
}

impl Error {
    /// The kind of this error.
    pub closed spec fn spec_kind(&self) -> ErrorKind {
        self.kind
    }

    /// The reason of this error.
    pub closed spec fn spec_reason(&self) -> Seq<char> {
        self.reason@
    }

    /// Makes a new error of the given kind.
    pub fn new(kind: ErrorKind, reason: String) -> (r: Error)
        ensures
            r.spec_kind() == kind,
            r.spec_reason() == reason@,
    {
        Error { kind, reason }
    }

    /// Returns the kind of this error.
    pub fn kind(&self) -> (r: ErrorKind)
        ensures
            r == self.spec_kind(),
    {
        self.kind
    }

    /// Returns the reason of this error.
    pub fn reason(&self) -> (r: &str)
        ensures
            r@ == self.spec_reason(),
    {
        self.reason.as_str()
    }

    /// Converts an error of the codec into an error of this crate.
    ///
    /// The kind is `IoError` where the codec failed because of an I/O error,
    /// and `CodecError` otherwise; the reason is the codec's own report.
    pub fn from_codec_error(e: CodecFailure) -> (r: Error)
        ensures
            r.spec_kind() == ErrorKind::IoError || r.spec_kind() == ErrorKind::CodecError,
    {
        let caused_by_io = codec_error_has_io_cause(&e);
        let reason = codec_error_report(&e);
        Error { kind: ErrorKind::of_codec_failure(caused_by_io), reason }
    }
}

/// The error type of the codec, carried through opaquely.
#[verifier::external_type_specification]
#[verifier::external_body]
pub struct ExCodecFailure(CodecFailure);

/// Relies on `bytecodec::Error::concrete_cause` (trackable's
/// `TrackableError::concrete_cause`): whether the cause of the error is a
/// `std::io::Error`. Nothing is promised of the answer.
#[verifier::external_body]
fn codec_error_has_io_cause(e: &CodecFailure) -> (r: bool) {
    e.concrete_cause::<std::io::Error>().is_some()
}

/// Relies on the `Display` impl of `bytecodec::Error`: a textual report of the
/// error and its history. Nothing is promised of the text.
#[verifier::external_body]
fn codec_error_report(e: &CodecFailure) -> (r: String) {
    format!("{}", e)
}

} // verus!
