//! Fixed-width text fields: UTF-8 bytes, padded at the end with white space.

use vstd::prelude::*;
use vstd::slice::slice_subrange;
use vstd::string::StringExecFns;
use vstd::utf8::{
    decode_utf8, encode_utf8, encode_utf8_decode_utf8, encode_utf8_valid_utf8, is_ascii_chars,
    is_ascii_chars_encode_utf8, pop_first_scalar, valid_utf8,
};

use crate::error::DecodeError;

verus! {

/// The error of `core::str::from_utf8`; nothing is read from it.
#[verifier::external_type_specification]
#[verifier::external_body]
pub struct ExUtf8Error(core::str::Utf8Error);

/// `core::str::from_utf8` accepts exactly the byte runs that are well-formed
/// UTF-8, and the string slice it then returns holds the characters that the
/// bytes encode.
pub assume_specification<'a>[ core::str::from_utf8 ](bytes: &'a [u8]) -> (result: Result<
    &'a str,
    core::str::Utf8Error,
>)
    ensures
        result is Ok <==> valid_utf8(bytes@),
        result matches Ok(text) ==> text@ == decode_utf8(bytes@),
;

/// The characters that carry the Unicode property `White_Space`.
pub open spec fn is_white_space(c: char) -> bool {
    let code = c as u32;
    ||| 0x09 <= code <= 0x0D
    ||| code == 0x20
    ||| code == 0x85
    ||| code == 0xA0
    ||| code == 0x1680
    ||| 0x2000 <= code <= 0x200A
    ||| code == 0x2028
    ||| code == 0x2029
    ||| code == 0x202F
    ||| code == 0x205F
    ||| code == 0x3000
}

/// `text` without the white space at its end.
pub open spec fn trimmed_end(text: Seq<char>) -> Seq<char>
    decreases text.len(),
{
    if text.len() > 0 && is_white_space(text.last()) {
        trimmed_end(text.drop_last())
    } else {
        text
    }
}

/// `str::trim_end` returns the slice without its trailing white space, where
/// white space is what the Unicode property `White_Space` says it is.
pub assume_specification<'a>[ str::trim_end ](text: &'a str) -> (trimmed: &'a str)
    ensures
        trimmed@ == trimmed_end(text@),
;

/// The text field of `len` bytes that starts at `at` in `bytes`: its
/// characters without the padding, or why there is none.
pub open spec fn text_field(bytes: Seq<u8>, at: int, len: int) -> Result<Seq<char>, DecodeError> {
    if bytes.len() < at + len {
        Err(DecodeError::Io)
    } else if !valid_utf8(bytes.subrange(at, at + len)) {
        Err(DecodeError::InvalidEncoding)
    } else {
        Ok(trimmed_end(decode_utf8(bytes.subrange(at, at + len))))
    }
}

/// What a decoded text stands for in contracts.
pub open spec fn text_outcome(result: Result<String, DecodeError>) -> Result<
    Seq<char>,
    DecodeError,
> {
    match result {
        Ok(text) => Ok(text@),
        Err(e) => Err(e),
    }
}

/// A text field whose bytes are not well-formed UTF-8 is refused as such,
/// whatever else the bytes hold.
pub proof fn lemma_invalid_encoding_is_refused(bytes: Seq<u8>, at: int, len: int)
    requires
        0 <= at,
        0 <= len,
        at + len <= bytes.len(),
        !valid_utf8(bytes.subrange(at, at + len)),
    ensures
        text_field(bytes, at, len) == Err::<Seq<char>, DecodeError>(DecodeError::InvalidEncoding),
{
}

/// ASCII characters are encoded one byte each, so a run of such bytes is
/// well-formed UTF-8 and decodes to the characters themselves.
pub proof fn lemma_ascii_bytes_decode(text: Seq<char>, bytes: Seq<u8>)
    requires
        is_ascii_chars(text),
        bytes.len() == text.len(),
        forall|i: int| 0 <= i < text.len() ==> bytes[i] == text[i] as u8,
    ensures
        valid_utf8(bytes),
        decode_utf8(bytes) == text,
{
    is_ascii_chars_encode_utf8(text);
    assert(encode_utf8(text) =~= bytes);
    encode_utf8_valid_utf8(text);
    encode_utf8_decode_utf8(text);
}

/// Well-formed UTF-8 never encodes more characters than it has bytes.
pub proof fn lemma_decoded_text_is_no_longer(bytes: Seq<u8>)
    requires
        valid_utf8(bytes),
    ensures
        decode_utf8(bytes).len() <= bytes.len(),
    decreases bytes.len(),
{
    if bytes.len() > 0 {
        lemma_decoded_text_is_no_longer(pop_first_scalar(bytes));
    }
}

/// Taking off white space never lengthens a text.
pub proof fn lemma_trimmed_text_is_no_longer(text: Seq<char>)
    ensures
        trimmed_end(text).len() <= text.len(),
    decreases text.len(),
{
    if text.len() > 0 && is_white_space(text.last()) {
        lemma_trimmed_text_is_no_longer(text.drop_last());
    }
}

/// A decoded text field has at most as many characters as the field has
/// bytes.
pub proof fn lemma_text_field_fits(bytes: Seq<u8>, at: int, len: int)
    requires
        0 <= at,
        0 <= len,
    ensures
        text_field(bytes, at, len) matches Ok(text) ==> text.len() <= len,
{
    if bytes.len() >= at + len && valid_utf8(bytes.subrange(at, at + len)) {
        lemma_decoded_text_is_no_longer(bytes.subrange(at, at + len));
        lemma_trimmed_text_is_no_longer(decode_utf8(bytes.subrange(at, at + len)));
    }
}

/// Decodes the text field of `len` bytes at offset `at` of `bytes`.
pub fn text_at(bytes: &[u8], at: usize, len: usize) -> (result: Result<String, DecodeError>)
    ensures
        text_outcome(result) == text_field(bytes@, at as int, len as int),
        result matches Ok(text) ==> text@.len() <= len,
{
    proof {
        lemma_text_field_fits(bytes@, at as int, len as int);
    }
    if at > bytes.len() || len > bytes.len() - at {
        return Err(DecodeError::Io);
    }
    let field = slice_subrange(bytes, at, at + len);
    match core::str::from_utf8(field) {
        Ok(text) => Ok(String::from_str(text.trim_end())),
        Err(_) => Err(DecodeError::InvalidEncoding),
    }
}

} // verus!
