//! Errors reported by the native Themis functions.
//!
//! Every call into the native library returns a raw status code. This
//! module classifies those codes into the categories that the rest of the
//! crate makes decisions on, and wraps a raw code into an [`Error`] value
//! that keeps the code available for diagnostics.

use vstd::prelude::*;

verus! {

/// Native status code: the operation succeeded.
pub const THEMIS_SUCCESS: i32 = 0;
/// Native status code: the operation failed inside the cryptographic core.
pub const THEMIS_FAIL: i32 = 11;
/// Native status code: a parameter was rejected by the native library.
pub const THEMIS_INVALID_PARAMETER: i32 = 12;
/// Native status code: the native library could not allocate memory.
pub const THEMIS_NO_MEMORY: i32 = 13;
/// Native status code: the supplied buffer cannot hold the output; the
/// required size has been written into the length parameters.
pub const THEMIS_BUFFER_TOO_SMALL: i32 = 14;

/// The category a native status code falls into.
///
/// `Success` and `BufferTooSmall` drive the two-phase negotiation; the
/// remaining variants classify the failures the native library can report.
/// A code this crate does not know is kept as `UnknownError` so that future
/// native codes still map to a definite category.
#[derive(Clone, Copy, Debug, PartialEq, Eq, Structural)]
pub enum ErrorKind {
    /// The native call succeeded.
    Success,
    /// The native cryptographic operation itself failed.
    Fail,
    /// The native library rejected a parameter.
    InvalidParameter,
    /// The native library ran out of memory.
    NoMemory,
    /// The output buffer is too small; the required size was reported.
    BufferTooSmall,
    /// A status code this crate does not recognize.
    UnknownError,
}

/// The category of a raw native status code.
pub open spec fn spec_kind_of(code: i32) -> ErrorKind {
    if code == THEMIS_SUCCESS {
        ErrorKind::Success
    } else if code == THEMIS_FAIL {
        ErrorKind::Fail
    } else if code == THEMIS_INVALID_PARAMETER {
        ErrorKind::InvalidParameter
    } else if code == THEMIS_NO_MEMORY {
        ErrorKind::NoMemory
    } else if code == THEMIS_BUFFER_TOO_SMALL {
        ErrorKind::BufferTooSmall
    } else {
        ErrorKind::UnknownError
    }
}

/// A status reported by the native library, kept as the raw code.
///
/// The code is classified on demand by [`Error::kind`]; the raw value stays
/// available through [`Error::code`] so that unrecognized codes can still be
/// reported exactly.
#[derive(Clone, Copy, Debug, PartialEq, Eq, Structural)]
pub struct Error {
    code: i32,
}

impl Error {
    /// The raw native status code carried by this error.
    pub closed spec fn spec_code(self) -> i32 {
        self.code
    }

    /// The category this error falls into.
    pub open spec fn spec_kind(self) -> ErrorKind {
        spec_kind_of(self.spec_code())
    }

    /// Wraps a raw status code reported by a native call.
    pub fn from_themis_status(code: i32) -> (e: Error)
        ensures
            e.spec_code() == code,
    {
        Error { code }
    }

    /// Returns the raw native status code.
    pub fn code(&self) -> (code: i32)
        ensures
            code == self.spec_code(),
    {
        self.code
    }

    /// Classifies the carried status code.
    pub fn kind(&self) -> (kind: ErrorKind)
        ensures
            kind == self.spec_kind(),
    {
        if self.code == THEMIS_SUCCESS {
            ErrorKind::Success
        } else if self.code == THEMIS_FAIL {
            ErrorKind::Fail
        } else if self.code == THEMIS_INVALID_PARAMETER {
            ErrorKind::InvalidParameter
        } else if self.code == THEMIS_NO_MEMORY {
            ErrorKind::NoMemory
        } else if self.code == THEMIS_BUFFER_TOO_SMALL {
            ErrorKind::BufferTooSmall
        } else {
            ErrorKind::UnknownError
        }
    }
}

} // verus!
