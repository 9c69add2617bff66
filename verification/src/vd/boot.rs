//! The boot record.

use vstd::prelude::*;

use crate::error::DecodeError;
use crate::number::{lemma_shared_prefix, raw_at, raw_field};
use crate::reader::Reader;
use crate::text::{lemma_text_field_fits, text_at, text_field};
use crate::vd::{descriptor_outcome, VolumeDescriptor, VolumeDescriptorView, PAYLOAD_SIZE};

verus! {

/// A boot record: who can boot from the volume, and how.
#[derive(Clone, Debug, PartialEq, Eq)]
pub struct BootRecord {
    /// The system that can act on the boot data.
    pub sys_ident: String,
    /// The boot system itself.
    pub ident: String,
    /// What the boot system keeps here; never interpreted.
    pub data: [u8; 1977],
}

/// What a boot record holds, as mathematical values.
pub struct BootRecordView {
    pub sys_ident: Seq<char>,
    pub ident: Seq<char>,
    pub data: Seq<u8>,
}

impl BootRecordView {
    /// Each text fits the field it was read from, and the boot data are
    /// complete.
    pub open spec fn well_formed(self) -> bool {
        &&& self.sys_ident.len() <= 32
        &&& self.ident.len() <= 32
        &&& self.data.len() == 1977
    }
}

impl View for BootRecord {
    type V = BootRecordView;

    open spec fn view(&self) -> BootRecordView {
        BootRecordView { sys_ident: self.sys_ident@, ident: self.ident@, data: self.data@ }
    }
}

impl Default for BootRecord {
    fn default() -> (record: BootRecord)
        ensures
            record@ == (BootRecordView {
                sys_ident: Seq::empty(),
                ident: Seq::empty(),
                data: Seq::new(1977, |i: int| 0u8),
            }),
            record@.well_formed(),
    {
        let record = BootRecord {
            sys_ident: String::new(),
            ident: String::new(),
            data: [0u8; 1977],
        };
        assert(record.data@ =~= Seq::new(1977, |i: int| 0u8));
        record
    }
}

/// The boot record with the payload `payload`: two text fields of 32 bytes,
/// then 1977 bytes of boot data.
pub open spec fn boot_record(payload: Seq<u8>) -> Result<BootRecordView, DecodeError> {
    let sys_ident = text_field(payload, 0, 32);
    let ident = text_field(payload, 32, 32);
    let data = raw_field(payload, 64, 1977);
    if sys_ident is Err {
        Err(sys_ident->Err_0)
    } else if ident is Err {
        Err(ident->Err_0)
    } else if data is Err {
        Err(data->Err_0)
    } else {
        Ok(BootRecordView { sys_ident: sys_ident->Ok_0, ident: ident->Ok_0, data: data->Ok_0 })
    }
}

/// The boot record with the payload `payload`, as a volume descriptor.
pub open spec fn boot_descriptor(payload: Seq<u8>) -> Result<VolumeDescriptorView, DecodeError> {
    match boot_record(payload) {
        Ok(record) => Ok(VolumeDescriptorView::Boot(record)),
        Err(e) => Err(e),
    }
}

/// Every decoded boot record is well-formed.
pub proof fn lemma_boot_record_is_well_formed(payload: Seq<u8>)
    ensures
        boot_record(payload) matches Ok(record) ==> record.well_formed(),
{
    lemma_text_field_fits(payload, 0, 32);
    lemma_text_field_fits(payload, 32, 32);
}

/// More bytes change nothing about a boot record, unless it was cut short.
pub proof fn lemma_boot_record_extends(part: Seq<u8>, whole: Seq<u8>)
    requires
        part.is_prefix_of(whole),
        boot_record(part) != Err::<BootRecordView, DecodeError>(DecodeError::Io),
    ensures
        boot_record(whole) == boot_record(part),
{
    assert(part.take(part.len() as int) =~= whole.take(part.len() as int));
    lemma_shared_prefix(part, whole, part.len() as int);
}

impl BootRecord {
    /// Decodes the payload of a boot record.
    pub fn from_reader(reader: &mut Reader) -> (result: Result<VolumeDescriptor, DecodeError>)
        ensures
            descriptor_outcome(result) == boot_descriptor(old(reader).remaining()),
            result matches Ok(found) ==> found@.well_formed(),
            result is Ok ==> final(reader).advanced(*old(reader), 2041),
            result is Err ==> *final(reader) == *old(reader),
    {
        let payload = reader.rest();
        let sys_ident = text_at(payload, 0, 32)?;
        let ident = text_at(payload, 32, 32)?;
        let data = raw_at::<1977>(payload, 64)?;
        reader.advance(PAYLOAD_SIZE);
        Ok(VolumeDescriptor::Boot(BootRecord { sys_ident, ident, data }))
    }
}

} // verus!
