use iso9660::error::DecodeError;
use iso9660::reader::Reader;

#[test]
fn new_reader_starts_at_zero() {
    let bytes = [1u8, 2, 3];
    let reader = Reader::new(&bytes);
    assert_eq!(reader.position(), 0);
    assert_eq!(reader.rest(), &[1u8, 2, 3]);
}

#[test]
fn read_exact_returns_the_bytes_and_moves_on() {
    let bytes = [10u8, 20, 30, 40, 50];
    let mut reader = Reader::new(&bytes);
    assert_eq!(reader.read_exact(2), Ok(&[10u8, 20][..]));
    assert_eq!(reader.position(), 2);
    assert_eq!(reader.read_exact(3), Ok(&[30u8, 40, 50][..]));
    assert_eq!(reader.position(), 5);
    assert_eq!(reader.rest(), &[] as &[u8]);
}

#[test]
fn read_exact_of_nothing_succeeds_at_the_end() {
    let bytes = [7u8];
    let mut reader = Reader::new(&bytes);
    assert_eq!(reader.read_exact(1), Ok(&[7u8][..]));
    assert_eq!(reader.read_exact(0), Ok(&[] as &[u8]));
    assert_eq!(reader.position(), 1);
}

#[test]
fn short_read_fails_and_leaves_the_reader_alone() {
    let bytes = [1u8, 2, 3];
    let mut reader = Reader::new(&bytes);
    assert_eq!(reader.read_exact(1), Ok(&[1u8][..]));
    assert_eq!(reader.read_exact(3), Err(DecodeError::Io));
    assert_eq!(reader.position(), 1);
    assert_eq!(reader.rest(), &[2u8, 3]);
}

#[test]
fn read_of_the_largest_count_fails_without_overflow() {
    let bytes = [1u8, 2, 3];
    let mut reader = Reader::new(&bytes);
    assert_eq!(reader.skip(2), Ok(()));
    assert_eq!(reader.read_exact(usize::MAX), Err(DecodeError::Io));
    assert_eq!(reader.position(), 2);
}

#[test]
fn skip_moves_on_or_fails() {
    let bytes = [0u8; 10];
    let mut reader = Reader::new(&bytes);
    assert_eq!(reader.skip(4), Ok(()));
    assert_eq!(reader.position(), 4);
    assert_eq!(reader.skip(7), Err(DecodeError::Io));
    assert_eq!(reader.position(), 4);
    assert_eq!(reader.skip(6), Ok(()));
    assert_eq!(reader.position(), 10);
}

#[test]
fn rest_does_not_consume() {
    let bytes = [5u8, 6, 7];
    let mut reader = Reader::new(&bytes);
    assert_eq!(reader.skip(1), Ok(()));
    assert_eq!(reader.rest(), &[6u8, 7]);
    assert_eq!(reader.rest(), &[6u8, 7]);
    assert_eq!(reader.position(), 1);
}

#[test]
fn a_copy_of_a_reader_moves_alone() {
    let bytes = [5u8, 6, 7];
    let reader = Reader::new(&bytes);
    let mut copy = reader;
    assert_eq!(copy.skip(2), Ok(()));
    assert_eq!(copy.position(), 2);
    assert_eq!(reader.position(), 0);
}
