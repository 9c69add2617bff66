//! Fixed-width unsigned integers, little-endian and big-endian.

use byteorder::{BigEndian, ByteOrder, LittleEndian};
use vstd::prelude::*;
use vstd::slice::slice_subrange;

use crate::error::DecodeError;

verus! {

/// The number whose two little-endian bytes open `bytes`.
pub open spec fn u16_le(bytes: Seq<u8>) -> u16 {
    (bytes[0] + 0x100 * bytes[1]) as u16
}

/// The number whose four little-endian bytes open `bytes`.
pub open spec fn u32_le(bytes: Seq<u8>) -> u32 {
    (bytes[0] + 0x100 * bytes[1] + 0x1_0000 * bytes[2] + 0x100_0000 * bytes[3]) as u32
}

/// The number whose four big-endian bytes open `bytes`.
pub open spec fn u32_be(bytes: Seq<u8>) -> u32 {
    (0x100_0000 * bytes[0] + 0x1_0000 * bytes[1] + 0x100 * bytes[2] + bytes[3]) as u32
}

/// `byteorder::LittleEndian::read_u16` reads the first two bytes of `buf`,
/// least significant first. It panics on a shorter slice.
#[verifier::external_body]
fn le_u16(buf: &[u8]) -> (value: u16)
    requires
        buf@.len() >= 2,
    ensures
        value == u16_le(buf@),
{
    LittleEndian::read_u16(buf)
}

/// `byteorder::LittleEndian::read_u32` reads the first four bytes of `buf`,
/// least significant first. It panics on a shorter slice.
#[verifier::external_body]
fn le_u32(buf: &[u8]) -> (value: u32)
    requires
        buf@.len() >= 4,
    ensures
        value == u32_le(buf@),
{
    LittleEndian::read_u32(buf)
}

/// `byteorder::BigEndian::read_u32` reads the first four bytes of `buf`,
/// most significant first. It panics on a shorter slice.
#[verifier::external_body]
fn be_u32(buf: &[u8]) -> (value: u32)
    requires
        buf@.len() >= 4,
    ensures
        value == u32_be(buf@),
{
    BigEndian::read_u32(buf)
}

/// The byte at `at`, or why there is none.
pub open spec fn u8_field(bytes: Seq<u8>, at: int) -> Result<u8, DecodeError> {
    if bytes.len() < at + 1 {
        Err(DecodeError::Io)
    } else {
        Ok(bytes[at])
    }
}

/// The little-endian `u16` at `at`, or why there is none.
pub open spec fn u16_le_field(bytes: Seq<u8>, at: int) -> Result<u16, DecodeError> {
    if bytes.len() < at + 2 {
        Err(DecodeError::Io)
    } else {
        Ok(u16_le(bytes.subrange(at, at + 2)))
    }
}

/// The little-endian `u32` at `at`, or why there is none.
pub open spec fn u32_le_field(bytes: Seq<u8>, at: int) -> Result<u32, DecodeError> {
    if bytes.len() < at + 4 {
        Err(DecodeError::Io)
    } else {
        Ok(u32_le(bytes.subrange(at, at + 4)))
    }
}

/// The big-endian `u32` at `at`, or why there is none.
pub open spec fn u32_be_field(bytes: Seq<u8>, at: int) -> Result<u32, DecodeError> {
    if bytes.len() < at + 4 {
        Err(DecodeError::Io)
    } else {
        Ok(u32_be(bytes.subrange(at, at + 4)))
    }
}

/// The `len` bytes that start at `at`, or why there are none.
pub open spec fn raw_field(bytes: Seq<u8>, at: int, len: int) -> Result<Seq<u8>, DecodeError> {
    if bytes.len() < at + len {
        Err(DecodeError::Io)
    } else {
        Ok(bytes.subrange(at, at + len))
    }
}

/// What a decoded run of bytes stands for in contracts.
pub open spec fn raw_outcome<const N: usize>(result: Result<[u8; N], DecodeError>) -> Result<
    Seq<u8>,
    DecodeError,
> {
    match result {
        Ok(bytes) => Ok(bytes@),
        Err(e) => Err(e),
    }
}

/// Two runs of bytes that share their first `len` bytes share every field
/// that lies within them.
pub proof fn lemma_shared_prefix(first: Seq<u8>, second: Seq<u8>, len: int)
    requires
        0 <= len <= first.len(),
        len <= second.len(),
        first.take(len) == second.take(len),
    ensures
        forall|k: int| 0 <= k < len ==> #[trigger] first[k] == second[k],
        forall|i: int, j: int|
            0 <= i <= j <= len ==> #[trigger] first.subrange(i, j) == second.subrange(i, j),
{
    assert forall|k: int| 0 <= k < len implies #[trigger] first[k] == second[k] by {
        assert(first.take(len)[k] == first[k]);
        assert(second.take(len)[k] == second[k]);
    }
    assert forall|i: int, j: int| 0 <= i <= j <= len implies #[trigger] first.subrange(i, j)
        == second.subrange(i, j) by {
        assert(first.subrange(i, j) =~= second.subrange(i, j));
    }
}

/// Reads the byte at offset `at` of `bytes`.
pub fn u8_at(bytes: &[u8], at: usize) -> (result: Result<u8, DecodeError>)
    ensures
        result == u8_field(bytes@, at as int),
{
    if at >= bytes.len() {
        return Err(DecodeError::Io);
    }
    Ok(bytes[at])
}

/// Reads the little-endian `u16` at offset `at` of `bytes`.
pub fn u16_le_at(bytes: &[u8], at: usize) -> (result: Result<u16, DecodeError>)
    ensures
        result == u16_le_field(bytes@, at as int),
{
    if at > bytes.len() || 2 > bytes.len() - at {
        return Err(DecodeError::Io);
    }
    Ok(le_u16(slice_subrange(bytes, at, at + 2)))
}

/// Reads the little-endian `u32` at offset `at` of `bytes`.
pub fn u32_le_at(bytes: &[u8], at: usize) -> (result: Result<u32, DecodeError>)
    ensures
        result == u32_le_field(bytes@, at as int),
{
    if at > bytes.len() || 4 > bytes.len() - at {
        return Err(DecodeError::Io);
    }
    Ok(le_u32(slice_subrange(bytes, at, at + 4)))
}

/// Reads the big-endian `u32` at offset `at` of `bytes`.
pub fn u32_be_at(bytes: &[u8], at: usize) -> (result: Result<u32, DecodeError>)
    ensures
        result == u32_be_field(bytes@, at as int),
{
    if at > bytes.len() || 4 > bytes.len() - at {
        return Err(DecodeError::Io);
    }
    Ok(be_u32(slice_subrange(bytes, at, at + 4)))
}

/// Copies the `N` bytes at offset `at` of `bytes`.
pub fn raw_at<const N: usize>(bytes: &[u8], at: usize) -> (result: Result<[u8; N], DecodeError>)
    ensures
        raw_outcome(result) == raw_field(bytes@, at as int, N as int),
{
    if at > bytes.len() || N > bytes.len() - at {
        return Err(DecodeError::Io);
    }
    let mut out: [u8; N] = [0u8; N];
    let mut i: usize = 0;
    while i < N
        invariant
            i <= N,
            at + N <= bytes.len(),
            forall|k: int| 0 <= k < i ==> out@[k] == bytes@[at + k],
        decreases N - i,
    {
        out[i] = bytes[at + i];
        i = i + 1;
    }
    assert(out@ =~= bytes@.subrange(at as int, at + N));
    Ok(out)
}

} // verus!
