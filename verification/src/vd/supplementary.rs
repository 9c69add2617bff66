//! The supplementary volume descriptor, kept as a placeholder.

use vstd::prelude::*;

use crate::error::DecodeError;
use crate::reader::Reader;
use crate::vd::{descriptor_outcome, VolumeDescriptor, VolumeDescriptorView, PAYLOAD_SIZE};

verus! {

/// A supplementary volume descriptor. Its payload is passed over.
#[derive(Clone, Copy, Debug, PartialEq, Eq, Structural)]
pub struct SupplementaryVolume {}

/// The supplementary volume descriptor with the payload `payload`: present
/// as soon as the sector is complete.
pub open spec fn supplementary_descriptor(payload: Seq<u8>) -> Result<
    VolumeDescriptorView,
    DecodeError,
> {
    if payload.len() < 2041 {
        Err(DecodeError::Io)
    } else {
        Ok(VolumeDescriptorView::Supplementary(SupplementaryVolume {  }))
    }
}

impl SupplementaryVolume {
    /// Passes over the payload of a supplementary volume descriptor.
    pub fn from_reader(reader: &mut Reader) -> (result: Result<VolumeDescriptor, DecodeError>)
        ensures
            descriptor_outcome(result) == supplementary_descriptor(old(reader).remaining()),
            result matches Ok(found) ==> found@.well_formed(),
            result is Ok ==> final(reader).advanced(*old(reader), 2041),
            result is Err ==> *final(reader) == *old(reader),
    {
        reader.skip(PAYLOAD_SIZE)?;
        Ok(VolumeDescriptor::Supplementary(SupplementaryVolume {  }))
    }
}

} // verus!
