//! Instants with a fixed offset from UTC, and how they are composed from
//! calendar fields.

use vstd::prelude::*;
use vstd::string::StringExecFns;

use crate::error::DecodeError;

verus! {

/// The error of `chrono::DateTime::parse_from_str`; nothing is read from it.
#[verifier::external_type_specification]
#[verifier::external_body]
pub struct ExParseError(chrono::ParseError);

/// An instant together with the offset of the clock it was read from.
#[derive(Clone, Copy, Debug, PartialEq, Eq, Structural)]
pub struct Timestamp {
    /// Seconds since 1970-01-01 00:00:00 UTC, leap seconds not counted.
    pub secs: i64,
    /// Nanoseconds since the last full second.
    pub nanos: u32,
    /// Local time minus UTC, in seconds.
    pub offset_secs: i32,
}

impl Timestamp {
    /// 1970-01-01 00:00:00 UTC, which also stands for "no date given".
    pub open spec fn epoch_value() -> Timestamp {
        Timestamp { secs: 0, nanos: 0, offset_secs: 0 }
    }

    /// The fraction is less than a second, and the offset is a whole number
    /// of quarters of an hour, from twelve hours west to thirteen hours east.
    /// Every decoded timestamp is of this kind.
    pub open spec fn well_formed(self) -> bool {
        &&& self.nanos < 1_000_000_000
        &&& -43_200 <= self.offset_secs <= 46_800
        &&& self.offset_secs % 900 == 0
    }

    /// 1970-01-01 00:00:00 UTC, which also stands for "no date given".
    pub fn epoch() -> (instant: Timestamp)
        ensures
            instant == Timestamp::epoch_value(),
            instant.well_formed(),
    {
        Timestamp { secs: 0, nanos: 0, offset_secs: 0 }
    }
}

/// The calendar fields of a timestamp as they stand on disc, before the
/// offset is applied.
#[derive(Clone, Copy, Debug, PartialEq, Eq, Structural)]
pub struct DateFields {
    pub year: u16,
    pub month: u8,
    pub day: u8,
    pub hour: u8,
    pub minute: u8,
    pub second: u8,
    /// Hundredths of a second.
    pub hundredths: u8,
}

impl DateFields {
    /// Every field lies in the range that the format gives it.
    pub open spec fn in_range(self) -> bool {
        &&& self.year <= 9999
        &&& 1 <= self.month <= 12
        &&& 1 <= self.day <= 31
        &&& self.hour <= 23
        &&& self.minute <= 59
        &&& self.second <= 59
        &&& self.hundredths <= 99
    }

    /// The fields as decimal digits: year, month, day, hour, minute, second,
    /// then the fraction of the second in thousandths.
    pub open spec fn text(self) -> Seq<char> {
        four_digits(self.year as int) + two_digits(self.month as int) + two_digits(
            self.day as int,
        ) + two_digits(self.hour as int) + two_digits(self.minute as int) + two_digits(
            self.second as int,
        ) + two_digits(self.hundredths as int) + seq!['0']
    }

    /// Tests whether every field lies in its range.
    pub fn is_in_range(&self) -> (ok: bool)
        ensures
            ok == self.in_range(),
    {
        self.year <= 9999 && 1 <= self.month && self.month <= 12 && 1 <= self.day && self.day
            <= 31 && self.hour <= 23 && self.minute <= 59 && self.second <= 59 && self.hundredths
            <= 99
    }
}

/// The decimal digit for `d`.
pub open spec fn digit(d: int) -> char {
    if d == 0 {
        '0'
    } else if d == 1 {
        '1'
    } else if d == 2 {
        '2'
    } else if d == 3 {
        '3'
    } else if d == 4 {
        '4'
    } else if d == 5 {
        '5'
    } else if d == 6 {
        '6'
    } else if d == 7 {
        '7'
    } else if d == 8 {
        '8'
    } else {
        '9'
    }
}

/// `n` below 100 as two decimal digits.
pub open spec fn two_digits(n: int) -> Seq<char> {
    seq![digit(n / 10), digit(n % 10)]
}

/// `n` below 10000 as four decimal digits.
pub open spec fn four_digits(n: int) -> Seq<char> {
    two_digits(n / 100) + two_digits(n % 100)
}

/// The offset from UTC, in minutes, that the offset byte `gmt` stands for:
/// quarters of an hour, counted from 48.
pub open spec fn offset_minutes(gmt: u8) -> int {
    (gmt - 48) * 15
}

/// An offset of `minutes` as a sign, two digits of hours and two of minutes.
pub open spec fn offset_text(minutes: int) -> Seq<char> {
    if minutes >= 0 {
        seq!['+'] + two_digits(minutes / 60) + two_digits(minutes % 60)
    } else {
        seq!['-'] + two_digits((-minutes) / 60) + two_digits((-minutes) % 60)
    }
}

/// The format by which the composed text is read back.
pub open spec fn instant_format() -> Seq<char> {
    "%Y%m%d%H%M%S%3f%z"@
}

/// What `chrono::DateTime::parse_from_str` makes of `text` under `format`:
/// seconds since the epoch, nanoseconds, and the offset in seconds; `None`
/// where it reports an error.
pub uninterp spec fn parsed_instant(text: Seq<char>, format: Seq<char>) -> Option<(i64, u32, i32)>;

/// `chrono::DateTime::parse_from_str`: the instant that `text` names under
/// `format`, taken apart by `timestamp`, `timestamp_subsec_nanos` and the
/// offset's `local_minus_utc`. The result depends on the two strings alone.
#[verifier::external_body]
fn parse_instant(text: &str, format: &str) -> (result: Result<(i64, u32, i32), chrono::ParseError>)
    ensures
        match result {
            Ok(parts) => parsed_instant(text@, format@) == Some(parts),
            Err(_) => parsed_instant(text@, format@) is None,
        },
{
    match chrono::DateTime::parse_from_str(text, format) {
        Ok(instant) => Ok(
            (
                instant.timestamp(),
                instant.timestamp_subsec_nanos(),
                instant.offset().local_minus_utc(),
            ),
        ),
        Err(e) => Err(e),
    }
}

/// The timestamp made from what the parser returned, given the fraction and
/// the offset that went into the text: the parser's instant where it agrees
/// with both, a composition error where it does not or where it found none.
pub open spec fn composed(parsed: Option<(i64, u32, i32)>, nanos: int, offset_secs: int) -> Result<
    Timestamp,
    DecodeError,
> {
    match parsed {
        Some(parts) => if parts.1 == nanos && parts.2 == offset_secs {
            Ok(Timestamp { secs: parts.0, nanos: parts.1, offset_secs: parts.2 })
        } else {
            Err(DecodeError::DateComposition)
        },
        None => Err(DecodeError::DateComposition),
    }
}

/// The instant that `fields` name on a clock set by the offset byte `gmt`.
pub open spec fn instant(fields: DateFields, gmt: u8) -> Result<Timestamp, DecodeError> {
    if !fields.in_range() {
        Err(DecodeError::InvalidDate)
    } else if gmt > 100 {
        Err(DecodeError::InvalidTimezoneOffset)
    } else {
        composed(
            parsed_instant(fields.text() + offset_text(offset_minutes(gmt)), instant_format()),
            fields.hundredths * 10_000_000,
            offset_minutes(gmt) * 60,
        )
    }
}

/// A composed timestamp carries the offset that the offset byte stands for
/// and the fraction that the fields give, whatever the parser made of the
/// rest.
pub proof fn lemma_instant_keeps_offset(fields: DateFields, gmt: u8)
    ensures
        instant(fields, gmt) matches Ok(stamp) ==> {
            &&& fields.in_range()
            &&& gmt <= 100
            &&& stamp.offset_secs == (gmt - 48) * 900
            &&& stamp.nanos == fields.hundredths * 10_000_000
            &&& stamp.well_formed()
        },
{
}

/// Maps the offset byte to minutes east of UTC.
pub fn gmt_offset_minutes(gmt: u8) -> (result: Result<i16, DecodeError>)
    ensures
        match result {
            Ok(minutes) => gmt <= 100 && minutes == offset_minutes(gmt),
            Err(e) => gmt > 100 && e == DecodeError::InvalidTimezoneOffset,
        },
{
    if gmt > 100 {
        return Err(DecodeError::InvalidTimezoneOffset);
    }
    let quarters: i16 = gmt as i16 - 48;
    Ok(quarters * 15)
}

/// The one-character string for the digit `d`.
fn digit_str(d: u8) -> (text: &'static str)
    requires
        d <= 9,
    ensures
        text@ == seq![digit(d as int)],
{
    proof {
        reveal_strlit("0");
        reveal_strlit("1");
        reveal_strlit("2");
        reveal_strlit("3");
        reveal_strlit("4");
        reveal_strlit("5");
        reveal_strlit("6");
        reveal_strlit("7");
        reveal_strlit("8");
        reveal_strlit("9");
    }
    match d {
        0 => "0",
        1 => "1",
        2 => "2",
        3 => "3",
        4 => "4",
        5 => "5",
        6 => "6",
        7 => "7",
        8 => "8",
        _ => "9",
    }
}

/// Appends `n` to `text` as two decimal digits.
fn push_two_digits(text: &mut String, n: u8)
    requires
        n <= 99,
    ensures
        final(text)@ == old(text)@ + two_digits(n as int),
{
    text.append(digit_str(n / 10));
    text.append(digit_str(n % 10));
}

/// Renders the offset byte as a sign, two digits of hours and two of minutes.
pub fn gmt_to_utc_str(gmt: u8) -> (result: Result<String, DecodeError>)
    ensures
        match result {
            Ok(text) => gmt <= 100 && text@ == offset_text(offset_minutes(gmt)),
            Err(e) => gmt > 100 && e == DecodeError::InvalidTimezoneOffset,
        },
{
    let minutes: i16 = gmt_offset_minutes(gmt)?;
    proof {
        reveal_strlit("+");
        reveal_strlit("-");
    }
    let (sign, size): (&str, i16) = if minutes >= 0 {
        ("+", minutes)
    } else {
        ("-", -minutes)
    };
    let mut text = String::from_str(sign);
    push_two_digits(&mut text, (size / 60) as u8);
    push_two_digits(&mut text, (size % 60) as u8);
    Ok(text)
}

/// Renders the fields as the digits that the instant is parsed from.
fn date_text(fields: &DateFields) -> (text: String)
    requires
        fields.in_range(),
    ensures
        text@ == fields.text(),
{
    let mut text = String::new();
    push_two_digits(&mut text, (fields.year / 100) as u8);
    push_two_digits(&mut text, (fields.year % 100) as u8);
    push_two_digits(&mut text, fields.month);
    push_two_digits(&mut text, fields.day);
    push_two_digits(&mut text, fields.hour);
    push_two_digits(&mut text, fields.minute);
    push_two_digits(&mut text, fields.second);
    push_two_digits(&mut text, fields.hundredths);
    text.append(digit_str(0));
    text
}

/// Turns the parser's answer into a timestamp. `nanos` and `offset_secs` are
/// the fraction and the offset that went into the parsed text; an answer that
/// disagrees with either is refused.
pub fn compose_timestamp(
    parsed: Result<(i64, u32, i32), chrono::ParseError>,
    nanos: u32,
    offset_secs: i32,
) -> (result: Result<Timestamp, DecodeError>)
    ensures
        result == composed(
            match parsed {
                Ok(parts) => Some(parts),
                Err(_) => None,
            },
            nanos as int,
            offset_secs as int,
        ),
{
    match parsed {
        Ok(parts) => {
            if parts.1 == nanos && parts.2 == offset_secs {
                Ok(Timestamp { secs: parts.0, nanos: parts.1, offset_secs: parts.2 })
            } else {
                Err(DecodeError::DateComposition)
            }
        },
        Err(_) => Err(DecodeError::DateComposition),
    }
}

/// Composes the instant that `fields` name on a clock set by the offset byte
/// `gmt`. The fields are checked first, then the offset; the calendar itself
/// (the length of each month, leap years) is left to the parser.
pub fn instant_of(fields: DateFields, gmt: u8) -> (result: Result<Timestamp, DecodeError>)
    ensures
        result == instant(fields, gmt),
        result matches Ok(stamp) ==> stamp.well_formed(),
{
    if !fields.is_in_range() {
        return Err(DecodeError::InvalidDate);
    }
    let offset = gmt_to_utc_str(gmt)?;
    let minutes: i16 = gmt_offset_minutes(gmt)?;
    let mut text = date_text(&fields);
    text.append(offset.as_str());
    let parsed = parse_instant(text.as_str(), "%Y%m%d%H%M%S%3f%z");
    compose_timestamp(parsed, fields.hundredths as u32 * 10_000_000, minutes as i32 * 60)
}

} // verus!
