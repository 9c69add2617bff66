use iso9660::error::DecodeError;
use iso9660::iso::{Iso, SYSTEM_AREA_SIZE};
use iso9660::vd::{SupplementaryVolume, VolumeDescriptor};

fn system_area() -> Vec<u8> {
    assert_eq!(SYSTEM_AREA_SIZE, 32768);
    (0..SYSTEM_AREA_SIZE).map(|i| (i % 253) as u8).collect()
}

fn marker(kind: u8) -> Vec<u8> {
    let mut bytes = vec![0u8; 2048];
    bytes[0] = kind;
    bytes[1..6].copy_from_slice(b"CD001");
    bytes[6] = 1;
    bytes
}

fn primary(volume_name: &str) -> Vec<u8> {
    let mut bytes = marker(1);
    for at in [8usize, 40] {
        for byte in &mut bytes[at..at + 32] {
            *byte = b' ';
        }
    }
    bytes[40..40 + volume_name.len()].copy_from_slice(volume_name.as_bytes());
    for byte in &mut bytes[190..813] {
        *byte = b' ';
    }
    for at in [813usize, 830, 847, 864] {
        for byte in &mut bytes[at..at + 16] {
            *byte = b'0';
        }
    }
    bytes
}

fn image(sectors: &[Vec<u8>]) -> Vec<u8> {
    let mut bytes = system_area();
    for sector in sectors {
        bytes.extend_from_slice(sector);
    }
    bytes
}

#[test]
fn primary_volume_then_terminator() {
    let bytes = image(&[primary("DISC"), marker(255)]);
    let iso = Iso::open(&bytes).unwrap();
    assert_eq!(iso.vds.len(), 2);
    match &iso.vds[0] {
        VolumeDescriptor::Primary(volume) => assert_eq!(volume.vol_id, "DISC"),
        other => panic!("no primary volume: {:?}", other),
    }
    assert_eq!(iso.vds[1], VolumeDescriptor::Terminator);
    let primaries = iso.vds.iter().filter(|found| matches!(found, VolumeDescriptor::Primary(_)));
    assert_eq!(primaries.count(), 1);
}

#[test]
fn nothing_is_read_behind_the_terminator() {
    let expected = Iso::open(&image(&[primary("DISC"), marker(255)])).unwrap();
    let garbage = vec![0xFFu8; 2048];
    let bytes = image(&[primary("DISC"), marker(255), garbage.clone(), marker(1)]);
    assert_eq!(Iso::open(&bytes), Ok(expected.clone()));
    let mut bytes = image(&[primary("DISC"), marker(255)]);
    bytes.extend_from_slice(b"odd");
    assert_eq!(Iso::open(&bytes), Ok(expected.clone()));
    let mut bytes = image(&[primary("DISC"), marker(255), marker(77)]);
    for byte in &mut bytes[0x8000 + 2048 + 7..0x8000 + 4096] {
        *byte = 0xFF;
    }
    assert_eq!(Iso::open(&bytes), Ok(expected));
}

#[test]
fn the_terminator_sector_has_to_be_complete() {
    let bytes = image(&[primary("DISC"), marker(255)]);
    assert_eq!(bytes.len(), 0x8000 + 4096);
    for len in [0x8000 + 2048 + 7, 0x8000 + 2048 + 8, 0x8000 + 4095] {
        assert_eq!(Iso::open(&bytes[..len]), Err(DecodeError::Io));
    }
    assert!(Iso::open(&bytes[..0x8000 + 4096]).is_ok());
    let alone = image(&[marker(255)]);
    assert_eq!(Iso::open(&alone[..0x8000 + 7]), Err(DecodeError::Io));
    assert_eq!(Iso::open(&alone[..0x8000 + 2047]), Err(DecodeError::Io));
}

#[test]
fn system_area_is_kept_as_it_is() {
    let bytes = image(&[marker(255)]);
    let iso = Iso::open(&bytes).unwrap();
    assert_eq!(&iso.sys_area[..], &bytes[..0x8000]);
    assert_eq!(iso.vds, vec![VolumeDescriptor::Terminator]);
}

#[test]
fn descriptors_come_in_the_order_of_their_sectors() {
    let bytes = image(&[marker(3), primary("ONE"), marker(2), primary("TWO"), marker(255)]);
    let iso = Iso::open(&bytes).unwrap();
    assert_eq!(iso.vds.len(), 5);
    assert_eq!(iso.vds[0], VolumeDescriptor::Partition);
    match &iso.vds[1] {
        VolumeDescriptor::Primary(volume) => assert_eq!(volume.vol_id, "ONE"),
        other => panic!("no primary volume: {:?}", other),
    }
    assert_eq!(iso.vds[2], VolumeDescriptor::Supplementary(SupplementaryVolume {}));
    match &iso.vds[3] {
        VolumeDescriptor::Primary(volume) => assert_eq!(volume.vol_id, "TWO"),
        other => panic!("no primary volume: {:?}", other),
    }
    assert_eq!(iso.vds[4], VolumeDescriptor::Terminator);
}

#[test]
fn a_short_system_area_is_an_io_error() {
    assert_eq!(Iso::open(&[]), Err(DecodeError::Io));
    assert_eq!(Iso::open(&system_area()[..0x7FFF]), Err(DecodeError::Io));
}

#[test]
fn a_missing_terminator_is_an_io_error() {
    assert_eq!(Iso::open(&system_area()), Err(DecodeError::Io));
    assert_eq!(Iso::open(&image(&[primary("DISC")])), Err(DecodeError::Io));
    assert_eq!(Iso::open(&image(&[primary("DISC"), marker(2), marker(3)])), Err(DecodeError::Io));
}

#[test]
fn a_cut_sequence_is_an_io_error() {
    let bytes = image(&[primary("DISC"), marker(255)]);
    assert_eq!(Iso::open(&bytes[..0x8000 + 2048 + 6]), Err(DecodeError::Io));
    assert_eq!(Iso::open(&bytes[..0x8000 + 2047]), Err(DecodeError::Io));
    assert_eq!(Iso::open(&bytes[..0x8000 + 3]), Err(DecodeError::Io));
}

#[test]
fn the_first_error_ends_the_decoding() {
    let mut bad_header = marker(1);
    bad_header[6] = 2;
    assert_eq!(
        Iso::open(&image(&[primary("DISC"), bad_header, marker(255)])),
        Err(DecodeError::InvalidHeader)
    );
    assert_eq!(
        Iso::open(&image(&[primary("DISC"), marker(77), marker(255)])),
        Err(DecodeError::UnknownDescriptorType)
    );
    let mut bad_text = primary("DISC");
    bad_text[41] = 0xFF;
    assert_eq!(
        Iso::open(&image(&[marker(2), bad_text, marker(255)])),
        Err(DecodeError::InvalidEncoding)
    );
    let mut bad_date = primary("DISC");
    bad_date[813] = b'1';
    assert_eq!(
        Iso::open(&image(&[bad_date.clone(), marker(255)])),
        Err(DecodeError::InvalidDate)
    );
    bad_date[813 + 16] = 101;
    assert_eq!(
        Iso::open(&image(&[bad_date, marker(255)])),
        Err(DecodeError::InvalidTimezoneOffset)
    );
    let mut bad_day = primary("DISC");
    bad_day[813..829].copy_from_slice(b"2023023000000000");
    bad_day[829] = 48;
    assert_eq!(
        Iso::open(&image(&[bad_day, marker(255)])),
        Err(DecodeError::DateComposition)
    );
}

#[test]
fn default_image_is_empty() {
    let iso = Iso::default();
    assert_eq!(iso.sys_area, [0u8; 0x8000]);
    assert!(iso.vds.is_empty());
}
