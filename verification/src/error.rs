//! Errors reported by the value log.

use vstd::prelude::*;

verus! {

/// Error type for the value logs.
#[derive(Debug, Clone, Copy, PartialEq, Eq, Structural)]
pub enum Error {
    /// There is not enough space left in the value log.
    InsufficientSpace {
        /// The requested size.
        requested: u32,
        /// The remaining size.
        available: u32,
    },
    /// The value (payload plus trailing checksum) exceeds the configured maximum.
    ValueTooLarge {
        /// The total record size that was asked for.
        size: usize,
        /// The configured maximum record size.
        maximum: usize,
    },
    /// A read was requested outside of the valid record region.
    OutOfBounds {
        /// The requested offset.
        offset: u32,
        /// The requested length, trailing checksum included.
        len: u32,
        /// The first byte of the record region.
        data_offset: u32,
        /// The end of the allocated region.
        end_offset: u32,
    },
    /// The stored checksum does not match the recomputed one.
    ChecksumMismatch,
    /// The value pointer was produced by a different log.
    IdMismatch,
    /// The bytes being opened do not begin with the magic text.
    BadMagicText,
    /// The bytes being opened carry a different magic version.
    BadMagicVersion,
}

impl Error {
    /// Builds the [`Error::ValueTooLarge`] variant.
    #[inline]
    pub fn value_too_large(size: usize, maximum: usize) -> (r: Self)
        ensures
            r == (Error::ValueTooLarge { size, maximum }),
    {
        Error::ValueTooLarge { size, maximum }
    }

    /// Builds the [`Error::OutOfBounds`] variant.
    #[inline]
    pub fn out_of_bounds(offset: u32, len: u32, data_offset: u32, end_offset: u32) -> (r: Self)
        ensures
            r == (Error::OutOfBounds { offset, len, data_offset, end_offset }),
    {
        Error::OutOfBounds { offset, len, data_offset, end_offset }
    }

    /// Builds the [`Error::ChecksumMismatch`] variant.
    #[inline]
    pub fn checksum_mismatch() -> (r: Self)
        ensures
            r == Error::ChecksumMismatch,
    {
        Error::ChecksumMismatch
    }
}

/// `n` clamped into the width of an error field.
pub open spec fn sat_u32(n: int) -> u32 {
    if n > u32::MAX {
        u32::MAX
    } else if n < 0 {
        0
    } else {
        n as u32
    }
}

/// A sum of two alternatives, used where an insert can fail either in the
/// caller's value builder or in the log itself.
#[derive(Debug, Clone, Copy, PartialEq, Eq)]
pub enum Either<L, R> {
    /// The first alternative.
    Left(L),
    /// The second alternative.
    Right(R),
}

/// The error returned when opened bytes do not begin with the magic text.
#[inline]
pub fn bad_magic_text() -> (r: Error)
    ensures
        r == Error::BadMagicText,
{
    Error::BadMagicText
}

/// The error returned when opened bytes carry a different magic version.
#[inline]
pub fn bad_magic_version() -> (r: Error)
    ensures
        r == Error::BadMagicVersion,
{
    Error::BadMagicVersion
}

} // verus!
