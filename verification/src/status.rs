//! Result codes shared by the entry points.
//!
//! Zero is success. Every failure is a negative number taken from a closed
//! set; each entry point has its own failure type, and within one entry point
//! no two failures share a code.

use vstd::prelude::*;

verus! {

/// The code every entry point returns when it has done its work.
pub const SUCCESS: i32 = 0;

/// Why a file conversion was refused or failed.
#[derive(Debug, Clone, Copy, PartialEq, Eq, Structural)]
pub enum FileError {
    /// One of the three references was absent.
    InvalidParameter,
    /// The input path is not well-formed UTF-8.
    InvalidInputPath,
    /// The output path is not well-formed UTF-8.
    InvalidOutputPath,
    /// The engine could not run the conversion.
    ConversionFailed,
}

/// Why a buffer conversion was refused or failed.
#[derive(Debug, Clone, Copy, PartialEq, Eq, Structural)]
pub enum BufferError {
    /// The pixel data, the configuration or the output slot was absent.
    InvalidParameter,
    /// The byte length is not `width * height * 4`.
    SizeMismatch,
    /// The rendered text holds a zero byte and cannot be terminated by one.
    EncodingFailed,
    /// The engine could not run the conversion.
    ConversionFailed,
}

impl FileError {
    /// The integer that stands for this failure.
    pub open spec fn code_spec(self) -> int {
        match self {
            FileError::InvalidParameter => -1,
            FileError::InvalidInputPath => -2,
            FileError::InvalidOutputPath => -3,
            FileError::ConversionFailed => -4,
        }
    }

    /// The integer that stands for this failure.
    pub fn code(self) -> (r: i32)
        ensures
            r == self.code_spec(),
    {
        match self {
            FileError::InvalidParameter => -1,
            FileError::InvalidInputPath => -2,
            FileError::InvalidOutputPath => -3,
            FileError::ConversionFailed => -4,
        }
    }
}

impl BufferError {
    /// The integer that stands for this failure.
    pub open spec fn code_spec(self) -> int {
        match self {
            BufferError::InvalidParameter => -1,
            BufferError::SizeMismatch => -2,
            BufferError::EncodingFailed => -3,
            BufferError::ConversionFailed => -4,
        }
    }

    /// The integer that stands for this failure.
    pub fn code(self) -> (r: i32)
        ensures
            r == self.code_spec(),
    {
        match self {
            BufferError::InvalidParameter => -1,
            BufferError::SizeMismatch => -2,
            BufferError::EncodingFailed => -3,
            BufferError::ConversionFailed => -4,
        }
    }
}

/// A failure code is never the success code, and two different failures of
/// one entry point never share a code: a caller that dispatches on the
/// integer alone tells every outcome apart.
pub proof fn lemma_codes_distinct(a: FileError, b: FileError, c: BufferError, d: BufferError)
    ensures
        -4 <= a.code_spec() < SUCCESS,
        -4 <= c.code_spec() < SUCCESS,
        a.code_spec() == b.code_spec() ==> a == b,
        c.code_spec() == d.code_spec() ==> c == d,
{
}

} // verus!
