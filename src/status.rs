//! The outcomes of a decode call, as a tagged result inside the library and
//! as integer codes at the boundary.
use vstd::prelude::*;

verus! {

/// Why a decode call produced no text.
#[derive(Clone, Copy, Debug, PartialEq, Eq, Structural)]
pub enum Failure {
    /// The file path is not well-formed UTF-16.
    InvalidEncoding,
    /// The bytes could not be read as an image.
    ImageLoad,
    /// The image holds no barcode that could be located.
    NotFound,
    /// A barcode was located but its content could not be decoded.
    Decode,
    /// The output buffer is too small (strict policy only).
    BufferOverflow,
}

/// What to do when the decoded text does not fit the output buffer.
#[derive(Clone, Copy, Debug, PartialEq, Eq, Structural)]
pub enum OverflowPolicy {
    /// Write nothing and report `Failure::BufferOverflow`.
    Strict,
    /// Write the units that fit and report the full length.
    BestEffort,
}

/// Code for a file path that is not well-formed UTF-16.
pub const INVALID_UTF16_STRING: i32 = -1;

/// Code for bytes that are not an image.
pub const IMAGE_ERROR: i32 = -2;

/// Code for a barcode whose content could not be decoded.
pub const QR_DECODE_ERROR: i32 = -3;

/// Code for an image in which no barcode was found.
pub const QR_DECODE_NO_QR_CODE: i32 = -4;

/// Code for an output buffer too small for the text, or a length too large
/// to report.
pub const BUFFER_TOO_SMALL: i32 = -5;

/// The boundary code of each failure.
pub open spec fn failure_code(f: Failure) -> i32 {
    match f {
        Failure::InvalidEncoding => INVALID_UTF16_STRING,
        Failure::ImageLoad => IMAGE_ERROR,
        Failure::NotFound => QR_DECODE_NO_QR_CODE,
        Failure::Decode => QR_DECODE_ERROR,
        Failure::BufferOverflow => BUFFER_TOO_SMALL,
    }
}

/// The boundary code of an outcome: the length itself when it fits in an
/// `i32`, else the code of the failure.
pub open spec fn status_of(r: Result<usize, Failure>) -> i32 {
    match r {
        Ok(n) => if n <= i32::MAX {
            n as i32
        } else {
            BUFFER_TOO_SMALL
        },
        Err(f) => failure_code(f),
    }
}

/// The boundary code of an outcome.
pub fn status_code(r: Result<usize, Failure>) -> (c: i32)
    ensures
        c == status_of(r),
{
    match r {
        Ok(n) => if n <= i32::MAX as usize {
            n as i32
        } else {
            BUFFER_TOO_SMALL
        },
        Err(f) => match f {
            Failure::InvalidEncoding => INVALID_UTF16_STRING,
            Failure::ImageLoad => IMAGE_ERROR,
            Failure::NotFound => QR_DECODE_NO_QR_CODE,
            Failure::Decode => QR_DECODE_ERROR,
            Failure::BufferOverflow => BUFFER_TOO_SMALL,
        },
    }
}

/// Every failure has a negative code of its own, so no failure is taken for
/// a length or for another failure.
pub proof fn lemma_failure_codes_distinct(f: Failure, g: Failure)
    ensures
        failure_code(f) < 0,
        f != g ==> failure_code(f) != failure_code(g),
{
}

/// The "not found" code is given by the "not found" outcome and by no other:
/// neither a length nor another failure.
pub proof fn lemma_not_found_distinct(r: Result<usize, Failure>)
    ensures
        status_of(r) == QR_DECODE_NO_QR_CODE <==> r == Err::<usize, Failure>(Failure::NotFound),
{
}

} // verus!
