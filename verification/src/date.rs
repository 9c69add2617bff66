//! The two encodings of a timestamp: seven numeric bytes, and sixteen
//! decimal digits; each is followed or closed by an offset byte.

use vstd::prelude::*;
use vstd::string::{StrSliceExecFns, StringExecFns};

use crate::error::DecodeError;
use crate::number::u8_at;
use crate::text::{is_white_space, lemma_ascii_bytes_decode, text_at, text_field, trimmed_end};
use crate::timestamp::{instant, instant_of, lemma_instant_keeps_offset, DateFields, Timestamp};

verus! {

/// The length of a numeric timestamp, offset byte included.
pub const NUMERIC_DATE_LEN: usize = 7;

/// The length of a timestamp in digits, offset byte included.
pub const DIGIT_DATE_LEN: usize = 17;

/// The fields of a numeric timestamp: the year counted from 1900, then
/// month, day, hour, minute and second, one byte each.
pub open spec fn numeric_fields(field: Seq<u8>) -> DateFields {
    DateFields {
        year: (1900 + field[0]) as u16,
        month: field[1],
        day: field[2],
        hour: field[3],
        minute: field[4],
        second: field[5],
        hundredths: 0,
    }
}

/// The numeric timestamp at `at` in `bytes`, or why there is none.
pub open spec fn date_field(bytes: Seq<u8>, at: int) -> Result<Timestamp, DecodeError> {
    if bytes.len() < at + 7 {
        Err(DecodeError::Io)
    } else {
        instant(numeric_fields(bytes.subrange(at, at + 7)), bytes[at + 6])
    }
}

/// Decodes the numeric timestamp at offset `at` of `bytes`.
pub fn date_at(bytes: &[u8], at: usize) -> (result: Result<Timestamp, DecodeError>)
    ensures
        result == date_field(bytes@, at as int),
        result matches Ok(stamp) ==> stamp.well_formed(),
{
    if at > bytes.len() || NUMERIC_DATE_LEN > bytes.len() - at {
        return Err(DecodeError::Io);
    }
    let fields = DateFields {
        year: 1900 + bytes[at] as u16,
        month: bytes[at + 1],
        day: bytes[at + 2],
        hour: bytes[at + 3],
        minute: bytes[at + 4],
        second: bytes[at + 5],
        hundredths: 0,
    };
    instant_of(fields, bytes[at + 6])
}

/// True for the ten decimal digits.
pub open spec fn is_digit(c: char) -> bool {
    0x30 <= c as u32 <= 0x39
}

/// The number that the digit `c` stands for.
pub open spec fn digit_value(c: char) -> int {
    c as u32 - 0x30
}

/// The number written by the two digits at `at` in `text`.
pub open spec fn two_digit_number(text: Seq<char>, at: int) -> int {
    10 * digit_value(text[at]) + digit_value(text[at + 1])
}

/// The fields written by sixteen digits: four of the year, then two each of
/// month, day, hour, minute, second and hundredths of a second. `None` for
/// any other text.
pub open spec fn text_fields(text: Seq<char>) -> Option<DateFields> {
    if text.len() == 16 && forall|i: int| 0 <= i < 16 ==> is_digit(#[trigger] text[i]) {
        Some(
            DateFields {
                year: (100 * two_digit_number(text, 0) + two_digit_number(text, 2)) as u16,
                month: two_digit_number(text, 4) as u8,
                day: two_digit_number(text, 6) as u8,
                hour: two_digit_number(text, 8) as u8,
                minute: two_digit_number(text, 10) as u8,
                second: two_digit_number(text, 12) as u8,
                hundredths: two_digit_number(text, 14) as u8,
            },
        )
    } else {
        None
    }
}

/// The digits that stand for "no date given".
pub open spec fn unspecified_date() -> Seq<char> {
    "0000000000000000"@
}

/// The timestamp in digits at `at` in `bytes`, or why there is none. Sixteen
/// zeros are the epoch whatever the offset byte holds.
pub open spec fn date_str_field(bytes: Seq<u8>, at: int) -> Result<Timestamp, DecodeError> {
    match text_field(bytes, at, 16) {
        Err(e) => Err(e),
        Ok(text) => if bytes.len() < at + 17 {
            Err(DecodeError::Io)
        } else if text == unspecified_date() {
            Ok(Timestamp::epoch_value())
        } else if bytes[at + 16] > 100 {
            Err(DecodeError::InvalidTimezoneOffset)
        } else {
            match text_fields(text) {
                None => Err(DecodeError::InvalidDate),
                Some(fields) => instant(fields, bytes[at + 16]),
            }
        },
    }
}

/// Sixteen zero digits decode to the epoch, whatever the offset byte holds,
/// in range or not.
pub proof fn lemma_unspecified_date_is_epoch(bytes: Seq<u8>, at: int)
    requires
        0 <= at,
        at + 17 <= bytes.len(),
        forall|i: int| at <= i < at + 16 ==> bytes[i] == 0x30,
    ensures
        date_str_field(bytes, at) == Ok::<Timestamp, DecodeError>(Timestamp::epoch_value()),
{
    let text = unspecified_date();
    let field = bytes.subrange(at, at + 16);
    reveal_strlit("0000000000000000");
    assert forall|i: int| 0 <= i < 16 implies text[i] == '0' by {}
    lemma_ascii_bytes_decode(text, field);
    assert(!is_white_space(text.last()));
    assert(trimmed_end(text) == text);
}

/// Every decoded timestamp, of either encoding, is well-formed.
pub proof fn lemma_decoded_dates_are_well_formed(bytes: Seq<u8>, at: int)
    ensures
        date_field(bytes, at) matches Ok(stamp) ==> stamp.well_formed(),
        date_str_field(bytes, at) matches Ok(stamp) ==> stamp.well_formed(),
{
    lemma_instant_keeps_offset(numeric_fields(bytes.subrange(at, at + 7)), bytes[at + 6]);
    if let Ok(text) = text_field(bytes, at, 16) {
        if let Some(fields) = text_fields(text) {
            lemma_instant_keeps_offset(fields, bytes[at + 16]);
        }
    }
}

/// Reads the calendar fields out of sixteen decimal digits.
pub fn fields_of_text(text: &str) -> (result: Option<DateFields>)
    ensures
        result == text_fields(text@),
{
    if text.unicode_len() != 16 {
        return None;
    }
    let mut digits: [u8; 16] = [0u8; 16];
    let mut i: usize = 0;
    while i < 16
        invariant
            i <= 16,
            text@.len() == 16,
            forall|k: int|
                0 <= k < i ==> is_digit(#[trigger] text@[k]) && digits@[k] == digit_value(text@[k]),
        decreases 16 - i,
    {
        let code: u32 = text.get_char(i) as u32;
        if code < 0x30 || code > 0x39 {
            return None;
        }
        digits[i] = (code - 0x30) as u8;
        i = i + 1;
    }
    Some(
        DateFields {
            year: (digits[0] as u16 * 10 + digits[1] as u16) * 100 + digits[2] as u16 * 10
                + digits[3] as u16,
            month: digits[4] * 10 + digits[5],
            day: digits[6] * 10 + digits[7],
            hour: digits[8] * 10 + digits[9],
            minute: digits[10] * 10 + digits[11],
            second: digits[12] * 10 + digits[13],
            hundredths: digits[14] * 10 + digits[15],
        },
    )
}

/// Decodes the timestamp in digits at offset `at` of `bytes`.
pub fn date_str_at(bytes: &[u8], at: usize) -> (result: Result<Timestamp, DecodeError>)
    ensures
        result == date_str_field(bytes@, at as int),
        result matches Ok(stamp) ==> stamp.well_formed(),
{
    let text = text_at(bytes, at, 16)?;
    assert(at + 16 <= bytes.len());
    let gmt: u8 = u8_at(bytes, at + 16)?;
    if text == String::from_str("0000000000000000") {
        return Ok(Timestamp::epoch());
    }
    if gmt > 100 {
        return Err(DecodeError::InvalidTimezoneOffset);
    }
    match fields_of_text(text.as_str()) {
        None => Err(DecodeError::InvalidDate),
        Some(fields) => instant_of(fields, gmt),
    }
}

} // verus!
