//! The ways in which decoding an image can fail.

use vstd::prelude::*;

verus! {

/// Why a decode step failed. A malformed image is a permanent failure: the
/// first error met is handed to the caller and nothing is retried.
#[derive(Clone, Copy, Debug, PartialEq, Eq, Structural)]
pub enum DecodeError {
    /// The bytes end before the field, the sector or the sequence does.
    Io,
    /// The standard identifier is not `CD001`, or the version is not 1.
    InvalidHeader,
    /// The type byte names no known kind of volume descriptor.
    UnknownDescriptorType,
    /// The bytes of a text field are not valid UTF-8.
    InvalidEncoding,
    /// A component of a date or time lies outside its range.
    InvalidDate,
    /// The offset byte of a timestamp lies outside 0..=100.
    InvalidTimezoneOffset,
    /// The components are each in range but name no instant.
    DateComposition,
}

} // verus!
