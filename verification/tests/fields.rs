use iso9660::error::DecodeError;
use iso9660::number::{raw_at, u16_le_at, u32_be_at, u32_le_at, u8_at};
use iso9660::reader::Reader;
use iso9660::text::text_at;
use iso9660::vd::read_str;

#[test]
fn u8_at_reads_one_byte() {
    let bytes = [9u8, 8, 7];
    assert_eq!(u8_at(&bytes, 0), Ok(9));
    assert_eq!(u8_at(&bytes, 2), Ok(7));
    assert_eq!(u8_at(&bytes, 3), Err(DecodeError::Io));
    assert_eq!(u8_at(&bytes, usize::MAX), Err(DecodeError::Io));
}

#[test]
fn u16_le_at_reads_least_significant_byte_first() {
    let bytes = [0xAAu8, 0x34, 0x12, 0xBB];
    assert_eq!(u16_le_at(&bytes, 1), Ok(0x1234));
    assert_eq!(u16_le_at(&bytes, 0), Ok(0x34AA));
    assert_eq!(u16_le_at(&bytes, 2), Ok(0xBB12));
}

#[test]
fn u16_le_at_is_the_first_byte_plus_256_times_the_second() {
    for low in 0..=255u16 {
        for high in 0..=255u16 {
            assert_eq!(u16_le_at(&[low as u8, high as u8], 0), Ok(low + 256 * high));
        }
    }
}

#[test]
fn u32_fields_weigh_each_byte() {
    for at in 0..4usize {
        for byte in [1u8, 0x7F, 0x80, 0xFF] {
            let mut bytes = [0u8; 4];
            bytes[at] = byte;
            assert_eq!(u32_le_at(&bytes, 0), Ok((byte as u32) << (8 * at)));
            assert_eq!(u32_be_at(&bytes, 0), Ok((byte as u32) << (8 * (3 - at))));
        }
    }
}

#[test]
fn u16_le_at_fails_on_a_short_field() {
    let bytes = [1u8, 2, 3];
    assert_eq!(u16_le_at(&bytes, 2), Err(DecodeError::Io));
    assert_eq!(u16_le_at(&bytes, 3), Err(DecodeError::Io));
    assert_eq!(u16_le_at(&bytes, 4), Err(DecodeError::Io));
    assert_eq!(u16_le_at(&bytes, usize::MAX), Err(DecodeError::Io));
    assert_eq!(u16_le_at(&[], 0), Err(DecodeError::Io));
}

#[test]
fn u32_le_at_reads_least_significant_byte_first() {
    let bytes = [0xFFu8, 0x78, 0x56, 0x34, 0x12, 0xEE];
    assert_eq!(u32_le_at(&bytes, 1), Ok(0x1234_5678));
    assert_eq!(u32_le_at(&bytes, 0), Ok(0x3456_78FF));
    assert_eq!(u32_le_at(&[0xFF, 0xFF, 0xFF, 0xFF], 0), Ok(u32::MAX));
    assert_eq!(u32_le_at(&[0x40, 0x42, 0x0F, 0x00], 0), Ok(1_000_000));
}

#[test]
fn u32_be_at_reads_most_significant_byte_first() {
    let bytes = [0xFFu8, 0x12, 0x34, 0x56, 0x78, 0xEE];
    assert_eq!(u32_be_at(&bytes, 1), Ok(0x1234_5678));
    assert_eq!(u32_be_at(&bytes, 2), Ok(0x3456_78EE));
    assert_eq!(u32_be_at(&[0x00, 0x0F, 0x42, 0x40], 0), Ok(1_000_000));
}

#[test]
fn u32_fields_fail_on_a_short_field() {
    let bytes = [1u8, 2, 3, 4, 5];
    assert_eq!(u32_le_at(&bytes, 2), Err(DecodeError::Io));
    assert_eq!(u32_be_at(&bytes, 2), Err(DecodeError::Io));
    assert_eq!(u32_le_at(&bytes, 6), Err(DecodeError::Io));
    assert_eq!(u32_be_at(&bytes, usize::MAX), Err(DecodeError::Io));
    assert_eq!(u32_le_at(&bytes, 1), Ok(0x0504_0302));
    assert_eq!(u32_be_at(&bytes, 1), Ok(0x0203_0405));
}

#[test]
fn raw_at_copies_the_bytes() {
    let bytes = [1u8, 2, 3, 4, 5, 6];
    assert_eq!(raw_at::<3>(&bytes, 2), Ok([3u8, 4, 5]));
    assert_eq!(raw_at::<6>(&bytes, 0), Ok([1u8, 2, 3, 4, 5, 6]));
    assert_eq!(raw_at::<0>(&bytes, 6), Ok([]));
    assert_eq!(raw_at::<3>(&bytes, 4), Err(DecodeError::Io));
    assert_eq!(raw_at::<1>(&bytes, usize::MAX), Err(DecodeError::Io));
}

#[test]
fn text_at_takes_off_trailing_spaces() {
    let bytes = b"..LINUX     ..";
    assert_eq!(text_at(bytes, 2, 10), Ok(String::from("LINUX")));
}

#[test]
fn text_at_keeps_leading_and_inner_spaces() {
    let bytes = b"  MY  DISC  ";
    assert_eq!(text_at(bytes, 0, 12), Ok(String::from("  MY  DISC")));
}

#[test]
fn text_at_of_spaces_only_is_empty() {
    let bytes = [0x20u8; 32];
    assert_eq!(text_at(&bytes, 0, 32), Ok(String::new()));
    assert_eq!(text_at(&bytes, 0, 0), Ok(String::new()));
}

#[test]
fn text_at_takes_off_every_kind_of_trailing_white_space() {
    let text = "A\t\n\u{0B}\u{0C}\r \u{85}\u{A0}\u{1680}\u{2000}\u{2005}\u{200A}\
                \u{2028}\u{2029}\u{202F}\u{205F}\u{3000}";
    let bytes = text.as_bytes();
    assert_eq!(text_at(bytes, 0, bytes.len()), Ok(String::from("A")));
}

fn is_white_space(code: u32) -> bool {
    matches!(
        code,
        0x09..=0x0D
            | 0x20
            | 0x85
            | 0xA0
            | 0x1680
            | 0x2000..=0x200A
            | 0x2028
            | 0x2029
            | 0x202F
            | 0x205F
            | 0x3000
    )
}

#[test]
fn text_at_takes_off_white_space_and_nothing_else() {
    let mut kinds = 0;
    for code in 0..=0x10FFFFu32 {
        let Some(last) = char::from_u32(code) else { continue };
        let mut text = String::from("A");
        text.push(last);
        let expected = if is_white_space(code) {
            kinds += 1;
            String::from("A")
        } else {
            text.clone()
        };
        assert_eq!(text_at(text.as_bytes(), 0, text.len()), Ok(expected), "U+{:04X}", code);
    }
    assert_eq!(kinds, 25);
}

#[test]
fn text_at_takes_off_a_whole_run_of_white_space() {
    let text = "A \u{3000}\t B \u{A0}\u{2003}\n ";
    assert_eq!(text_at(text.as_bytes(), 0, text.len()), Ok(String::from("A \u{3000}\t B")));
    let text = " \u{2028}\r\n";
    assert_eq!(text_at(text.as_bytes(), 0, text.len()), Ok(String::new()));
}

#[test]
fn text_at_keeps_what_is_no_white_space() {
    let bytes = "AB\0\0".as_bytes();
    assert_eq!(text_at(bytes, 0, 4), Ok(String::from("AB\0\0")));
    let bytes = "A\u{200B}".as_bytes();
    assert_eq!(text_at(bytes, 0, bytes.len()), Ok(String::from("A\u{200B}")));
    let bytes = "A\u{1F}".as_bytes();
    assert_eq!(text_at(bytes, 0, bytes.len()), Ok(String::from("A\u{1F}")));
}

#[test]
fn text_at_decodes_characters_of_several_bytes() {
    let bytes = "Gr\u{fc}\u{df}e \u{20ac}\u{1f600}  ".as_bytes();
    assert_eq!(bytes.len(), 17);
    assert_eq!(
        text_at(bytes, 0, bytes.len()),
        Ok(String::from("Gr\u{fc}\u{df}e \u{20ac}\u{1f600}"))
    );
}

#[test]
fn text_at_never_gives_more_characters_than_bytes() {
    let full = "ABCDEFGHIJKLMNOPQRSTUVWXYZ012345";
    assert_eq!(text_at(full.as_bytes(), 0, 32), Ok(String::from(full)));
    let wide = "\u{e9}".repeat(16);
    let text = text_at(wide.as_bytes(), 0, 32).unwrap();
    assert_eq!(text.chars().count(), 16);
    assert_eq!(text, wide);
}

#[test]
fn text_at_refuses_invalid_utf8() {
    assert_eq!(text_at(&[0x41, 0xFF, 0x42, 0x20], 0, 4), Err(DecodeError::InvalidEncoding));
    assert_eq!(text_at(&[0xC3, 0x28], 0, 2), Err(DecodeError::InvalidEncoding));
    assert_eq!(text_at(&[0xE2, 0x82], 0, 2), Err(DecodeError::InvalidEncoding));
    assert_eq!(text_at(&[0xED, 0xA0, 0x80], 0, 3), Err(DecodeError::InvalidEncoding));
    assert_eq!(text_at(&[0xC0, 0x80], 0, 2), Err(DecodeError::InvalidEncoding));
    assert_eq!(text_at(&[0x80], 0, 1), Err(DecodeError::InvalidEncoding));
}

#[test]
fn text_at_looks_at_its_own_bytes_only() {
    let bytes = [0xFFu8, 0x41, 0x42, 0xFF];
    assert_eq!(text_at(&bytes, 1, 2), Ok(String::from("AB")));
    assert_eq!(text_at(&bytes, 0, 2), Err(DecodeError::InvalidEncoding));
    assert_eq!(text_at(&bytes, 2, 2), Err(DecodeError::InvalidEncoding));
}

#[test]
fn text_at_refuses_a_character_cut_in_two() {
    let bytes = "\u{e9}".as_bytes();
    assert_eq!(text_at(bytes, 0, 1), Err(DecodeError::InvalidEncoding));
    assert_eq!(text_at(bytes, 1, 1), Err(DecodeError::InvalidEncoding));
}

#[test]
fn text_at_fails_on_a_short_field_before_it_looks_at_the_bytes() {
    let bytes = [0xFFu8, 0xFF, 0xFF];
    assert_eq!(text_at(&bytes, 0, 4), Err(DecodeError::Io));
    assert_eq!(text_at(&bytes, 2, 2), Err(DecodeError::Io));
    assert_eq!(text_at(&bytes, 4, 0), Err(DecodeError::Io));
    assert_eq!(text_at(&bytes, usize::MAX, 2), Err(DecodeError::Io));
    assert_eq!(text_at(&bytes, 1, usize::MAX), Err(DecodeError::Io));
}

#[test]
fn read_str_consumes_the_whole_field() {
    let bytes = b"CDROM   next";
    let mut reader = Reader::new(bytes);
    assert_eq!(read_str(&mut reader, 8), Ok(String::from("CDROM")));
    assert_eq!(reader.position(), 8);
    assert_eq!(read_str(&mut reader, 4), Ok(String::from("next")));
    assert_eq!(reader.position(), 12);
}

#[test]
fn read_str_with_invalid_utf8_aborts_with_invalid_encoding() {
    let bytes = [0x41u8, 0x42, 0xFE, 0x43, 0x44];
    let mut reader = Reader::new(&bytes);
    assert_eq!(read_str(&mut reader, 4), Err(DecodeError::InvalidEncoding));
    assert_eq!(reader.position(), 0);
    assert_eq!(reader.rest(), &bytes);
}

#[test]
fn read_str_fails_on_a_short_stream() {
    let bytes = b"ABC";
    let mut reader = Reader::new(bytes);
    assert_eq!(read_str(&mut reader, 4), Err(DecodeError::Io));
    assert_eq!(reader.position(), 0);
    assert_eq!(read_str(&mut reader, 3), Ok(String::from("ABC")));
    assert_eq!(read_str(&mut reader, 1), Err(DecodeError::Io));
    assert_eq!(reader.position(), 3);
}
