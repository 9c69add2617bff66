//! A whole image: the system area, then the volume descriptors up to the
//! terminator.

use vstd::prelude::*;

use crate::error::DecodeError;
use crate::number::raw_at;
use crate::reader::Reader;
use crate::vd::{
    descriptor, header_is_valid, lemma_descriptor_extends, lemma_descriptor_is_well_formed,
    lemma_descriptor_needs_sector, lemma_type_selects_kind, PrimaryVolumeView, VolumeDescriptor,
    VolumeDescriptorView,
};

verus! {

/// The length of the system area that opens every image.
pub const SYSTEM_AREA_SIZE: usize = 0x8000;

/// A decoded image.
#[derive(Clone, Debug, PartialEq, Eq)]
pub struct Iso {
    /// The system area, reserved for the system that boots from the disc.
    pub sys_area: [u8; 0x8000],
    /// The volume descriptors, in the order in which they stand on disc.
    pub vds: Vec<VolumeDescriptor>,
}

/// What an image holds, as mathematical values.
pub struct IsoView {
    pub sys_area: Seq<u8>,
    pub vds: Seq<VolumeDescriptorView>,
}

/// The views of a run of descriptors.
pub open spec fn views(vds: Seq<VolumeDescriptor>) -> Seq<VolumeDescriptorView> {
    vds.map_values(|found: VolumeDescriptor| found@)
}

impl View for Iso {
    type V = IsoView;

    open spec fn view(&self) -> IsoView {
        IsoView { sys_area: self.sys_area@, vds: views(self.vds@) }
    }
}

/// No descriptor follows a terminator.
pub open spec fn terminator_only_last(vds: Seq<VolumeDescriptorView>) -> bool {
    forall|i: int| 0 <= i < vds.len() - 1 ==> !(#[trigger] vds[i] is Terminator)
}

/// The sequence ends in a terminator and holds no other.
pub open spec fn ends_in_one_terminator(vds: Seq<VolumeDescriptorView>) -> bool {
    &&& vds.len() > 0
    &&& vds.last() is Terminator
    &&& terminator_only_last(vds)
}

impl IsoView {
    /// The system area is complete, every descriptor is well-formed, and
    /// none follows a terminator.
    pub open spec fn well_formed(self) -> bool {
        &&& self.sys_area.len() == 0x8000
        &&& forall|i: int| 0 <= i < self.vds.len() ==> (#[trigger] self.vds[i]).well_formed()
        &&& terminator_only_last(self.vds)
    }
}

/// `tail` put behind `head`; an error stays what it is.
pub open spec fn continued(
    head: Seq<VolumeDescriptorView>,
    tail: Result<Seq<VolumeDescriptorView>, DecodeError>,
) -> Result<Seq<VolumeDescriptorView>, DecodeError> {
    match tail {
        Ok(rest) => Ok(head + rest),
        Err(e) => Err(e),
    }
}

/// The volume descriptors that `bytes` open with, one per sector, up to and
/// including the terminator, or the first error on the way. Bytes that end
/// before the terminator's sector does are an error.
pub open spec fn descriptors(bytes: Seq<u8>) -> Result<Seq<VolumeDescriptorView>, DecodeError>
    decreases bytes.len(),
{
    match descriptor(bytes) {
        Err(e) => Err(e),
        Ok(first) => if first is Terminator {
            Ok(seq![first])
        } else if bytes.len() < 2048 {
            // Never met: no descriptor is decoded from less than a sector.
            Err(DecodeError::Io)
        } else {
            continued(seq![first], descriptors(bytes.skip(2048)))
        },
    }
}

/// The image that `bytes` hold, or why they hold none.
pub open spec fn image(bytes: Seq<u8>) -> Result<IsoView, DecodeError> {
    if bytes.len() < 0x8000 {
        Err(DecodeError::Io)
    } else {
        match descriptors(bytes.skip(0x8000)) {
            Ok(vds) => Ok(IsoView { sys_area: bytes.take(0x8000), vds }),
            Err(e) => Err(e),
        }
    }
}

/// What a decoded image stands for in contracts.
pub open spec fn image_outcome(result: Result<Iso, DecodeError>) -> Result<IsoView, DecodeError> {
    match result {
        Ok(iso) => Ok(iso@),
        Err(e) => Err(e),
    }
}

/// A decoded sequence ends in a terminator and holds no other, and each of
/// its descriptors is well-formed.
pub proof fn lemma_descriptors_end_in_one_terminator(bytes: Seq<u8>)
    ensures
        descriptors(bytes) matches Ok(vds) ==> {
            &&& ends_in_one_terminator(vds)
            &&& forall|i: int| 0 <= i < vds.len() ==> (#[trigger] vds[i]).well_formed()
        },
    decreases bytes.len(),
{
    lemma_descriptor_is_well_formed(bytes);
    if let Ok(first) = descriptor(bytes) {
        if !(first is Terminator) && bytes.len() >= 2048 {
            lemma_descriptors_end_in_one_terminator(bytes.skip(2048));
            if let Ok(rest) = descriptors(bytes.skip(2048)) {
                let vds = seq![first] + rest;
                assert(vds.last() == rest.last());
                assert forall|i: int| 0 <= i < vds.len() - 1 implies !(#[trigger] vds[i]
                    is Terminator) by {
                    if i > 0 {
                        assert(vds[i] == rest[i - 1]);
                    }
                }
                assert forall|i: int| 0 <= i < vds.len() implies (#[trigger] vds[i]).well_formed(
                ) by {
                    if i > 0 {
                        assert(vds[i] == rest[i - 1]);
                    }
                }
            }
        }
    }
}

/// Every decoded image is well-formed and ends in its one terminator.
pub proof fn lemma_image_is_well_formed(bytes: Seq<u8>)
    ensures
        image(bytes) matches Ok(iso) ==> iso.well_formed() && ends_in_one_terminator(iso.vds),
{
    if bytes.len() >= 0x8000 {
        lemma_descriptors_end_in_one_terminator(bytes.skip(0x8000));
    }
}

/// Behind a descriptor that is no terminator, the sequence goes on with the
/// next sector.
pub proof fn lemma_sequence_goes_on(bytes: Seq<u8>, first: VolumeDescriptorView)
    requires
        descriptor(bytes) == Ok::<VolumeDescriptorView, DecodeError>(first),
        !(first is Terminator),
    ensures
        bytes.len() >= 2048,
        descriptors(bytes) == continued(seq![first], descriptors(bytes.skip(2048))),
{
    lemma_descriptor_needs_sector(bytes);
}

/// The sequence ends with the terminator: nothing behind its sector is
/// decoded.
pub proof fn lemma_sequence_ends(bytes: Seq<u8>)
    requires
        descriptor(bytes) == Ok::<VolumeDescriptorView, DecodeError>(
            VolumeDescriptorView::Terminator,
        ),
    ensures
        descriptors(bytes) == Ok::<Seq<VolumeDescriptorView>, DecodeError>(
            seq![VolumeDescriptorView::Terminator],
        ),
{
}

/// More bytes change nothing about a sequence of descriptors, unless it was
/// cut short: whatever follows the terminator is never looked at.
pub proof fn lemma_descriptors_extend(part: Seq<u8>, whole: Seq<u8>)
    requires
        part.is_prefix_of(whole),
        descriptors(part) != Err::<Seq<VolumeDescriptorView>, DecodeError>(DecodeError::Io),
    ensures
        descriptors(whole) == descriptors(part),
    decreases part.len(),
{
    lemma_descriptor_needs_sector(part);
    lemma_descriptor_extends(part, whole);
    if let Ok(first) = descriptor(part) {
        if !(first is Terminator) {
            lemma_descriptors_extend(part.skip(2048), whole.skip(2048));
        }
    }
}

/// More bytes change nothing about an image, unless it was cut short. So
/// an image may be decoded from the start of a file, and more of the file
/// be read only when the decoding fails with [`DecodeError::Io`].
pub proof fn lemma_image_extends(part: Seq<u8>, whole: Seq<u8>)
    requires
        part.is_prefix_of(whole),
        image(part) != Err::<IsoView, DecodeError>(DecodeError::Io),
    ensures
        image(whole) == image(part),
{
    assert(part.take(0x8000) =~= whole.take(0x8000));
    lemma_descriptors_extend(part.skip(0x8000), whole.skip(0x8000));
}

/// The parts of an image that is made of a system area, one sector and an
/// end.
proof fn lemma_image_parts(system_area: Seq<u8>, sector: Seq<u8>, end: Seq<u8>)
    requires
        system_area.len() == 0x8000,
        sector.len() == 2048,
    ensures
        (system_area + sector + end).take(0x8000) == system_area,
        sector.is_prefix_of((system_area + sector + end).skip(0x8000)),
        (system_area + sector + end).skip(0x8000).skip(2048) == end,
{
    let bytes = system_area + sector + end;
}

/// An image of a system area, one sector with a primary volume descriptor
/// and one with a terminator decodes to exactly these two descriptors,
/// whatever the terminator's sector holds behind its header and whatever
/// follows that sector.
pub proof fn lemma_primary_then_terminator(
    system_area: Seq<u8>,
    sector: Seq<u8>,
    end: Seq<u8>,
    volume: PrimaryVolumeView,
)
    requires
        system_area.len() == 0x8000,
        sector.len() == 2048,
        descriptor(sector) == Ok::<VolumeDescriptorView, DecodeError>(
            VolumeDescriptorView::Primary(volume),
        ),
        end.len() >= 2048,
        header_is_valid(end),
        end[0] == 255,
    ensures
        image(system_area + sector + end) == Ok::<IsoView, DecodeError>(
            IsoView {
                sys_area: system_area,
                vds: seq![
                    VolumeDescriptorView::Primary(volume),
                    VolumeDescriptorView::Terminator,
                ],
            },
        ),
{
    let bytes = system_area + sector + end;
    let sequence = bytes.skip(0x8000);
    let first = VolumeDescriptorView::Primary(volume);
    lemma_image_parts(system_area, sector, end);
    lemma_descriptor_extends(sector, sequence);
    lemma_sequence_goes_on(sequence, first);
    lemma_type_selects_kind(end);
    lemma_sequence_ends(end);
    assert(seq![first] + seq![VolumeDescriptorView::Terminator] =~= seq![
        first,
        VolumeDescriptorView::Terminator,
    ]);
}

impl Iso {
    /// Every descriptor is well-formed, and none follows a terminator.
    pub open spec fn well_formed(&self) -> bool {
        self@.well_formed()
    }

    /// Decodes an image from its bytes: the system area, then one volume
    /// descriptor per sector up to the terminator, which is the last
    /// descriptor of the result. The first error ends the decoding and is
    /// returned alone. The terminator's sector has to be complete; nothing
    /// behind it is looked at.
    pub fn open(bytes: &[u8]) -> (result: Result<Iso, DecodeError>)
        ensures
            image_outcome(result) == image(bytes@),
            result matches Ok(iso) ==> iso.well_formed() && ends_in_one_terminator(iso@.vds),
    {
        let sys_area = raw_at::<0x8000>(bytes, 0)?;
        let mut reader = Reader::new(bytes);
        reader.advance(SYSTEM_AREA_SIZE);
        let mut vds: Vec<VolumeDescriptor> = Vec::new();
        proof {
            lemma_image_is_well_formed(bytes@);
        }
        loop
            invariant
                bytes@.len() >= 0x8000,
                sys_area@ == bytes@.take(0x8000),
                descriptors(bytes@.skip(0x8000)) == continued(
                    views(vds@),
                    descriptors(reader.remaining()),
                ),
                image(bytes@) matches Ok(iso) ==> iso.well_formed() && ends_in_one_terminator(
                    iso.vds,
                ),
            decreases reader.remaining().len(),
        {
            let ghost before = reader;
            let ghost head = views(vds@);
            let found = VolumeDescriptor::from_reader(&mut reader)?;
            let done = matches!(found, VolumeDescriptor::Terminator);
            vds.push(found);
            proof {
                lemma_descriptor_needs_sector(before.remaining());
                assert(views(vds@) =~= head + seq![found@]);
            }
            if done {
                return Ok(Iso { sys_area, vds });
            }
            proof {
                let tail = descriptors(reader.remaining());
                if let Ok(rest) = tail {
                    assert(head + (seq![found@] + rest) =~= (head + seq![found@]) + rest);
                }
            }
        }
    }
}

impl Default for Iso {
    fn default() -> (iso: Iso)
        ensures
            iso@ == (IsoView { sys_area: Seq::new(0x8000, |i: int| 0u8), vds: Seq::empty() }),
            iso.well_formed(),
    {
        let iso = Iso { sys_area: [0u8; 0x8000], vds: Vec::new() };
        assert(iso.sys_area@ =~= Seq::new(0x8000, |i: int| 0u8));
        assert(views(iso.vds@) =~= Seq::empty());
        iso
    }
}

} // verus!
