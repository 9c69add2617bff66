//! Volume descriptors: one sector each, told apart by the first byte of a
//! common header.

use vstd::prelude::*;

use crate::date::{
    date_at, date_field, date_str_at, date_str_field, DIGIT_DATE_LEN, NUMERIC_DATE_LEN,
};
use crate::error::DecodeError;
use crate::reader::Reader;
use crate::text::{text_at, text_field, text_outcome};
use crate::timestamp::Timestamp;

pub mod boot;
pub mod primary;
pub mod supplementary;

pub use crate::vd::boot::{BootRecord, BootRecordView};
pub use crate::vd::primary::{PrimaryVolume, PrimaryVolumeView};
pub use crate::vd::supplementary::SupplementaryVolume;

verus! {

/// The length of a sector, and so of every volume descriptor.
pub const SECTOR_SIZE: usize = 2048;

/// The length of the header that opens every volume descriptor: the type
/// byte, the standard identifier and the version.
pub const HEADER_SIZE: usize = 7;

/// The length of what follows the header in a sector.
pub const PAYLOAD_SIZE: usize = 2041;

/// A decoded volume descriptor.
#[derive(Clone, Debug, PartialEq, Eq)]
pub enum VolumeDescriptor {
    Boot(BootRecord),
    Primary(PrimaryVolume),
    Supplementary(SupplementaryVolume),
    /// A volume partition; its sector is passed over.
    Partition,
    /// The end of the sequence.
    Terminator,
}

/// What a volume descriptor holds, as mathematical values.
pub enum VolumeDescriptorView {
    Boot(BootRecordView),
    Primary(PrimaryVolumeView),
    Supplementary(SupplementaryVolume),
    Partition,
    Terminator,
}

impl View for VolumeDescriptor {
    type V = VolumeDescriptorView;

    open spec fn view(&self) -> VolumeDescriptorView {
        match *self {
            VolumeDescriptor::Boot(record) => VolumeDescriptorView::Boot(record@),
            VolumeDescriptor::Primary(volume) => VolumeDescriptorView::Primary(volume@),
            VolumeDescriptor::Supplementary(volume) => VolumeDescriptorView::Supplementary(volume),
            VolumeDescriptor::Partition => VolumeDescriptorView::Partition,
            VolumeDescriptor::Terminator => VolumeDescriptorView::Terminator,
        }
    }
}

impl VolumeDescriptorView {
    /// What the descriptor holds is well-formed.
    pub open spec fn well_formed(self) -> bool {
        match self {
            VolumeDescriptorView::Boot(record) => record.well_formed(),
            VolumeDescriptorView::Primary(volume) => volume.well_formed(),
            _ => true,
        }
    }
}

/// What a decoded descriptor stands for in contracts.
pub open spec fn descriptor_outcome(result: Result<VolumeDescriptor, DecodeError>) -> Result<
    VolumeDescriptorView,
    DecodeError,
> {
    match result {
        Ok(descriptor) => Ok(descriptor@),
        Err(e) => Err(e),
    }
}

/// The standard identifier is `CD001` and the version is 1.
pub open spec fn header_is_valid(sector: Seq<u8>) -> bool {
    &&& sector[1] == 0x43
    &&& sector[2] == 0x44
    &&& sector[3] == 0x30
    &&& sector[4] == 0x30
    &&& sector[5] == 0x31
    &&& sector[6] == 1
}

/// A descriptor without a decoded payload: found as soon as its sector is
/// complete, whatever the payload holds.
pub open spec fn marker(bytes: Seq<u8>, found: VolumeDescriptorView) -> Result<
    VolumeDescriptorView,
    DecodeError,
> {
    if bytes.len() < 2048 {
        Err(DecodeError::Io)
    } else {
        Ok(found)
    }
}

/// The volume descriptor that `bytes` open with, or why there is none. The
/// header decides first, then the type byte, then the payload. Every kind
/// takes a whole sector, the terminator too.
pub open spec fn descriptor(bytes: Seq<u8>) -> Result<VolumeDescriptorView, DecodeError> {
    if bytes.len() < 7 {
        Err(DecodeError::Io)
    } else if !header_is_valid(bytes) {
        Err(DecodeError::InvalidHeader)
    } else if bytes[0] == 0 {
        boot::boot_descriptor(bytes.skip(7))
    } else if bytes[0] == 1 {
        primary::primary_descriptor(bytes.skip(7))
    } else if bytes[0] == 2 {
        supplementary::supplementary_descriptor(bytes.skip(7))
    } else if bytes[0] == 3 {
        marker(bytes, VolumeDescriptorView::Partition)
    } else if bytes[0] == 255 {
        marker(bytes, VolumeDescriptorView::Terminator)
    } else {
        Err(DecodeError::UnknownDescriptorType)
    }
}

/// Behind a valid header, each of the five known type bytes gives its own
/// kind of descriptor: a decoded descriptor is of the kind that the type
/// byte names, and the kinds without a decoded payload are always found.
pub proof fn lemma_type_selects_kind(sector: Seq<u8>)
    requires
        sector.len() >= 2048,
        header_is_valid(sector),
    ensures
        descriptor(sector) matches Ok(found) ==> {
            &&& found is Boot <==> sector[0] == 0
            &&& found is Primary <==> sector[0] == 1
            &&& found is Supplementary <==> sector[0] == 2
            &&& found is Partition <==> sector[0] == 3
            &&& found is Terminator <==> sector[0] == 255
        },
        sector[0] == 2 ==> descriptor(sector) == Ok::<VolumeDescriptorView, DecodeError>(
            VolumeDescriptorView::Supplementary(SupplementaryVolume {  }),
        ),
        sector[0] == 3 ==> descriptor(sector) == Ok::<VolumeDescriptorView, DecodeError>(
            VolumeDescriptorView::Partition,
        ),
        sector[0] == 255 ==> descriptor(sector) == Ok::<VolumeDescriptorView, DecodeError>(
            VolumeDescriptorView::Terminator,
        ),
{
}

/// Behind a valid header, a type byte other than 0, 1, 2, 3 and 255 is
/// refused as unknown, whatever follows the header and however little.
pub proof fn lemma_unknown_type_is_refused(bytes: Seq<u8>)
    requires
        bytes.len() >= 7,
        header_is_valid(bytes),
        bytes[0] > 3,
        bytes[0] != 255,
    ensures
        descriptor(bytes) == Err::<VolumeDescriptorView, DecodeError>(
            DecodeError::UnknownDescriptorType,
        ),
{
}

/// A header with another standard identifier or another version is refused,
/// whatever the type byte holds.
pub proof fn lemma_invalid_header_is_refused(bytes: Seq<u8>)
    requires
        bytes.len() >= 7,
        !header_is_valid(bytes),
    ensures
        descriptor(bytes) == Err::<VolumeDescriptorView, DecodeError>(DecodeError::InvalidHeader),
{
}

/// Every kind of descriptor takes a whole sector: none is decoded from
/// less. Behind a valid header, the kinds whose payload is passed over, the
/// terminator among them, are refused as cut short when the sector is not
/// complete.
pub proof fn lemma_descriptor_needs_sector(bytes: Seq<u8>)
    ensures
        descriptor(bytes) is Ok ==> bytes.len() >= 2048,
        7 <= bytes.len() < 2048 && header_is_valid(bytes) && (bytes[0] == 2 || bytes[0] == 3
            || bytes[0] == 255) ==> descriptor(bytes) == Err::<VolumeDescriptorView, DecodeError>(
            DecodeError::Io,
        ),
{
    reveal(primary::primary_volume);
}

/// Every decoded descriptor is well-formed.
pub proof fn lemma_descriptor_is_well_formed(bytes: Seq<u8>)
    ensures
        descriptor(bytes) matches Ok(found) ==> found.well_formed(),
{
    boot::lemma_boot_record_is_well_formed(bytes.skip(7));
    primary::lemma_primary_volume_is_well_formed(bytes.skip(7));
}

/// More bytes change nothing about a descriptor, unless it was cut short.
pub proof fn lemma_descriptor_extends(part: Seq<u8>, whole: Seq<u8>)
    requires
        part.is_prefix_of(whole),
        descriptor(part) != Err::<VolumeDescriptorView, DecodeError>(DecodeError::Io),
    ensures
        descriptor(whole) == descriptor(part),
{
    assert(part.take(part.len() as int) =~= whole.take(part.len() as int));
    crate::number::lemma_shared_prefix(part, whole, part.len() as int);
    if header_is_valid(part) && part[0] == 0 {
        boot::lemma_boot_record_extends(part.skip(7), whole.skip(7));
    } else if header_is_valid(part) && part[0] == 1 {
        primary::lemma_primary_volume_extends(part.skip(7), whole.skip(7));
    }
}

impl VolumeDescriptor {
    /// Decodes the volume descriptor at the reader's position.
    ///
    /// Whatever kind is found, the reader moves to the start of the next
    /// sector: the payload of a partition and of a terminator is passed
    /// over, and a sector cut short is an error for them as for the others.
    pub fn from_reader(reader: &mut Reader) -> (result: Result<VolumeDescriptor, DecodeError>)
        ensures
            descriptor_outcome(result) == descriptor(old(reader).remaining()),
            result matches Ok(found) ==> found@.well_formed(),
            result is Ok ==> final(reader).advanced(*old(reader), 2048),
            result is Err ==> *final(reader) == *old(reader),
    {
        proof {
            lemma_descriptor_is_well_formed(reader.remaining());
        }
        let sector = reader.rest();
        if sector.len() < HEADER_SIZE {
            return Err(DecodeError::Io);
        }
        if sector[1] != 0x43 || sector[2] != 0x44 || sector[3] != 0x30 || sector[4] != 0x30
            || sector[5] != 0x31 || sector[6] != 1 {
            return Err(DecodeError::InvalidHeader);
        }
        let kind: u8 = sector[0];
        let mut payload = *reader;
        payload.advance(HEADER_SIZE);
        let ghost start = payload;
        let decoded = match kind {
            0 => BootRecord::from_reader(&mut payload),
            1 => PrimaryVolume::from_reader(&mut payload),
            2 => SupplementaryVolume::from_reader(&mut payload),
            3 => match payload.skip(PAYLOAD_SIZE) {
                Ok(()) => Ok(VolumeDescriptor::Partition),
                Err(e) => Err(e),
            },
            255 => match payload.skip(PAYLOAD_SIZE) {
                Ok(()) => Ok(VolumeDescriptor::Terminator),
                Err(e) => Err(e),
            },
            _ => Err(DecodeError::UnknownDescriptorType),
        };
        match decoded {
            Ok(found) => {
                proof {
                    payload.lemma_advanced_twice(start, *old(reader), 7, 2041);
                }
                *reader = payload;
                Ok(found)
            },
            Err(e) => Err(e),
        }
    }
}

/// The placeholder for the root directory record: its 34 bytes as they
/// stand on disc.
#[derive(Clone, Debug, PartialEq, Eq)]
pub struct DirectoryEntry {
    pub raw: [u8; 34],
}

impl View for DirectoryEntry {
    type V = Seq<u8>;

    open spec fn view(&self) -> Seq<u8> {
        self.raw@
    }
}

impl Default for DirectoryEntry {
    fn default() -> (entry: DirectoryEntry)
        ensures
            entry@ == Seq::new(34, |i: int| 0u8),
    {
        let entry = DirectoryEntry { raw: [0u8; 34] };
        entry
    }
}

/// Reads a text field of `len` bytes: UTF-8, with the white space that pads
/// its end taken off.
pub fn read_str(reader: &mut Reader, len: usize) -> (result: Result<String, DecodeError>)
    ensures
        text_outcome(result) == text_field(old(reader).remaining(), 0, len as int),
        result matches Ok(text) ==> text@.len() <= len,
        result is Ok ==> final(reader).advanced(*old(reader), len as int),
        result is Err ==> *final(reader) == *old(reader),
{
    let text = text_at(reader.rest(), 0, len)?;
    reader.advance(len);
    Ok(text)
}

/// Reads a timestamp of seven numeric bytes.
pub fn read_date(reader: &mut Reader) -> (result: Result<Timestamp, DecodeError>)
    ensures
        result == date_field(old(reader).remaining(), 0),
        result matches Ok(stamp) ==> stamp.well_formed(),
        result is Ok ==> final(reader).advanced(*old(reader), 7),
        result is Err ==> *final(reader) == *old(reader),
{
    let instant = date_at(reader.rest(), 0)?;
    reader.advance(NUMERIC_DATE_LEN);
    Ok(instant)
}

/// Reads a timestamp of sixteen decimal digits and an offset byte.
pub fn read_date_str(reader: &mut Reader) -> (result: Result<Timestamp, DecodeError>)
    ensures
        result == date_str_field(old(reader).remaining(), 0),
        result matches Ok(stamp) ==> stamp.well_formed(),
        result is Ok ==> final(reader).advanced(*old(reader), 17),
        result is Err ==> *final(reader) == *old(reader),
{
    let instant = date_str_at(reader.rest(), 0)?;
    reader.advance(DIGIT_DATE_LEN);
    Ok(instant)
}

} // verus!
