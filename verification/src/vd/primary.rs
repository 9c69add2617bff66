//! The primary volume descriptor.

use vstd::prelude::*;

use crate::date::{date_str_at, date_str_field, lemma_decoded_dates_are_well_formed};
use crate::error::DecodeError;
use crate::number::{
    lemma_shared_prefix, raw_at, raw_field, u16_le_at, u16_le_field, u32_be_at, u32_be_field,
    u32_le_at, u32_le_field, u8_at, u8_field,
};
use crate::reader::Reader;
use crate::text::{lemma_text_field_fits, text_at, text_field};
use crate::timestamp::Timestamp;
use crate::vd::{
    descriptor_outcome, DirectoryEntry, VolumeDescriptor, VolumeDescriptorView, PAYLOAD_SIZE,
};

verus! {

/// A primary volume descriptor: what the volume is called, how large it is,
/// where its path tables lie and when it was made.
///
/// Each number stands on disc twice, little-endian and then big-endian; the
/// little-endian copy is taken and the other passed over.
#[derive(Clone, Debug, PartialEq, Eq)]
pub struct PrimaryVolume {
    /// The system that can act on the first sectors of the volume.
    pub sys_id: String,
    /// The name of the volume.
    pub vol_id: String,
    /// How many logical blocks the volume takes.
    pub vol_space_size: u32,
    /// How many volumes the set has.
    pub vol_set_size: u16,
    /// Which volume of the set this is.
    pub vol_seq_num: u16,
    /// The length of a logical block in bytes.
    pub logical_block_size: u16,
    /// The length of the path table in bytes.
    pub path_table_size: u32,
    /// Where the little-endian path table starts.
    pub le_path_table: u32,
    /// Where the optional little-endian path table starts.
    pub le_opt_path_table: u32,
    /// Where the big-endian path table starts.
    pub be_path_table: u32,
    /// Where the optional big-endian path table starts.
    pub be_opt_path_table: u32,
    /// The record of the root directory, undecoded.
    pub root_dir: DirectoryEntry,
    /// The name of the volume set.
    pub vol_set_id: String,
    /// Who published the volume.
    pub publisher_id: String,
    /// Who prepared the data.
    pub data_preparer_id: String,
    /// How the data are laid out.
    pub app_id: String,
    /// The file that holds the copyright notice.
    pub copyright_id: String,
    /// The file that holds the abstract.
    pub abstract_file_id: String,
    /// The file that holds the bibliography.
    pub bibliographic_file_id: String,
    /// When the volume was made.
    pub vol_create_date: Timestamp,
    /// When the volume was last changed.
    pub vol_modify_date: Timestamp,
    /// From when the volume is out of date.
    pub vol_expiration_date: Timestamp,
    /// From when the volume may be used.
    pub vol_effective_date: Timestamp,
    /// The version of the directory records and path tables.
    pub fs_version: u8,
    /// What the application keeps here; never interpreted.
    pub app_data: [u8; 512],
}

/// What a primary volume descriptor holds, as mathematical values.
pub struct PrimaryVolumeView {
    pub sys_id: Seq<char>,
    pub vol_id: Seq<char>,
    pub vol_space_size: u32,
    pub vol_set_size: u16,
    pub vol_seq_num: u16,
    pub logical_block_size: u16,
    pub path_table_size: u32,
    pub le_path_table: u32,
    pub le_opt_path_table: u32,
    pub be_path_table: u32,
    pub be_opt_path_table: u32,
    pub root_dir: Seq<u8>,
    pub vol_set_id: Seq<char>,
    pub publisher_id: Seq<char>,
    pub data_preparer_id: Seq<char>,
    pub app_id: Seq<char>,
    pub copyright_id: Seq<char>,
    pub abstract_file_id: Seq<char>,
    pub bibliographic_file_id: Seq<char>,
    pub vol_create_date: Timestamp,
    pub vol_modify_date: Timestamp,
    pub vol_expiration_date: Timestamp,
    pub vol_effective_date: Timestamp,
    pub fs_version: u8,
    pub app_data: Seq<u8>,
}

impl PrimaryVolumeView {
    /// Each text fits the field it was read from, each timestamp is
    /// well-formed, and the runs of bytes are complete.
    pub open spec fn well_formed(self) -> bool {
        &&& self.sys_id.len() <= 32
        &&& self.vol_id.len() <= 32
        &&& self.root_dir.len() == 34
        &&& self.vol_set_id.len() <= 128
        &&& self.publisher_id.len() <= 128
        &&& self.data_preparer_id.len() <= 128
        &&& self.app_id.len() <= 128
        &&& self.copyright_id.len() <= 38
        &&& self.abstract_file_id.len() <= 36
        &&& self.bibliographic_file_id.len() <= 37
        &&& self.vol_create_date.well_formed()
        &&& self.vol_modify_date.well_formed()
        &&& self.vol_expiration_date.well_formed()
        &&& self.vol_effective_date.well_formed()
        &&& self.app_data.len() == 512
    }
}

impl View for PrimaryVolume {
    type V = PrimaryVolumeView;

    open spec fn view(&self) -> PrimaryVolumeView {
        PrimaryVolumeView {
            sys_id: self.sys_id@,
            vol_id: self.vol_id@,
            vol_space_size: self.vol_space_size,
            vol_set_size: self.vol_set_size,
            vol_seq_num: self.vol_seq_num,
            logical_block_size: self.logical_block_size,
            path_table_size: self.path_table_size,
            le_path_table: self.le_path_table,
            le_opt_path_table: self.le_opt_path_table,
            be_path_table: self.be_path_table,
            be_opt_path_table: self.be_opt_path_table,
            root_dir: self.root_dir@,
            vol_set_id: self.vol_set_id@,
            publisher_id: self.publisher_id@,
            data_preparer_id: self.data_preparer_id@,
            app_id: self.app_id@,
            copyright_id: self.copyright_id@,
            abstract_file_id: self.abstract_file_id@,
            bibliographic_file_id: self.bibliographic_file_id@,
            vol_create_date: self.vol_create_date,
            vol_modify_date: self.vol_modify_date,
            vol_expiration_date: self.vol_expiration_date,
            vol_effective_date: self.vol_effective_date,
            fs_version: self.fs_version,
            app_data: self.app_data@,
        }
    }
}

impl Default for PrimaryVolume {
    fn default() -> (volume: PrimaryVolume)
        ensures
            volume@ == (PrimaryVolumeView {
                sys_id: Seq::empty(),
                vol_id: Seq::empty(),
                vol_space_size: 0,
                vol_set_size: 0,
                vol_seq_num: 0,
                logical_block_size: 0,
                path_table_size: 0,
                le_path_table: 0,
                le_opt_path_table: 0,
                be_path_table: 0,
                be_opt_path_table: 0,
                root_dir: Seq::new(34, |i: int| 0u8),
                vol_set_id: Seq::empty(),
                publisher_id: Seq::empty(),
                data_preparer_id: Seq::empty(),
                app_id: Seq::empty(),
                copyright_id: Seq::empty(),
                abstract_file_id: Seq::empty(),
                bibliographic_file_id: Seq::empty(),
                vol_create_date: Timestamp::epoch_value(),
                vol_modify_date: Timestamp::epoch_value(),
                vol_expiration_date: Timestamp::epoch_value(),
                vol_effective_date: Timestamp::epoch_value(),
                fs_version: 0,
                app_data: Seq::new(512, |i: int| 0u8),
            }),
            volume@.well_formed(),
    {
        let volume = PrimaryVolume {
            sys_id: String::new(),
            vol_id: String::new(),
            vol_space_size: 0,
            vol_set_size: 0,
            vol_seq_num: 0,
            logical_block_size: 0,
            path_table_size: 0,
            le_path_table: 0,
            le_opt_path_table: 0,
            be_path_table: 0,
            be_opt_path_table: 0,
            root_dir: DirectoryEntry::default(),
            vol_set_id: String::new(),
            publisher_id: String::new(),
            data_preparer_id: String::new(),
            app_id: String::new(),
            copyright_id: String::new(),
            abstract_file_id: String::new(),
            bibliographic_file_id: String::new(),
            vol_create_date: Timestamp::epoch(),
            vol_modify_date: Timestamp::epoch(),
            vol_expiration_date: Timestamp::epoch(),
            vol_effective_date: Timestamp::epoch(),
            fs_version: 0,
            app_data: [0u8; 512],
        };
        assert(volume.app_data@ =~= Seq::new(512, |i: int| 0u8));
        volume
    }
}

/// The primary volume descriptor with the payload `payload`. Every field
/// lies at a fixed offset; the first field, in the order of the offsets,
/// that is cut short or malformed decides the error.
#[verifier::opaque]
pub open spec fn primary_volume(payload: Seq<u8>) -> Result<PrimaryVolumeView, DecodeError> {
    let sys_id = text_field(payload, 1, 32);
    let vol_id = text_field(payload, 33, 32);
    let vol_space_size = u32_le_field(payload, 73);
    let vol_set_size = u16_le_field(payload, 113);
    let vol_seq_num = u16_le_field(payload, 117);
    let logical_block_size = u16_le_field(payload, 121);
    let path_table_size = u32_le_field(payload, 125);
    let le_path_table = u32_le_field(payload, 133);
    let le_opt_path_table = u32_le_field(payload, 137);
    let be_path_table = u32_be_field(payload, 141);
    let be_opt_path_table = u32_be_field(payload, 145);
    let root_dir = raw_field(payload, 149, 34);
    let vol_set_id = text_field(payload, 183, 128);
    let publisher_id = text_field(payload, 311, 128);
    let data_preparer_id = text_field(payload, 439, 128);
    let app_id = text_field(payload, 567, 128);
    let copyright_id = text_field(payload, 695, 38);
    let abstract_file_id = text_field(payload, 733, 36);
    let bibliographic_file_id = text_field(payload, 769, 37);
    let vol_create_date = date_str_field(payload, 806);
    let vol_modify_date = date_str_field(payload, 823);
    let vol_expiration_date = date_str_field(payload, 840);
    let vol_effective_date = date_str_field(payload, 857);
    let fs_version = u8_field(payload, 874);
    let app_data = raw_field(payload, 876, 512);
    if sys_id is Err {
        Err(sys_id->Err_0)
    } else if vol_id is Err {
        Err(vol_id->Err_0)
    } else if vol_space_size is Err {
        Err(vol_space_size->Err_0)
    } else if vol_set_size is Err {
        Err(vol_set_size->Err_0)
    } else if vol_seq_num is Err {
        Err(vol_seq_num->Err_0)
    } else if logical_block_size is Err {
        Err(logical_block_size->Err_0)
    } else if path_table_size is Err {
        Err(path_table_size->Err_0)
    } else if le_path_table is Err {
        Err(le_path_table->Err_0)
    } else if le_opt_path_table is Err {
        Err(le_opt_path_table->Err_0)
    } else if be_path_table is Err {
        Err(be_path_table->Err_0)
    } else if be_opt_path_table is Err {
        Err(be_opt_path_table->Err_0)
    } else if root_dir is Err {
        Err(root_dir->Err_0)
    } else if vol_set_id is Err {
        Err(vol_set_id->Err_0)
    } else if publisher_id is Err {
        Err(publisher_id->Err_0)
    } else if data_preparer_id is Err {
        Err(data_preparer_id->Err_0)
    } else if app_id is Err {
        Err(app_id->Err_0)
    } else if copyright_id is Err {
        Err(copyright_id->Err_0)
    } else if abstract_file_id is Err {
        Err(abstract_file_id->Err_0)
    } else if bibliographic_file_id is Err {
        Err(bibliographic_file_id->Err_0)
    } else if vol_create_date is Err {
        Err(vol_create_date->Err_0)
    } else if vol_modify_date is Err {
        Err(vol_modify_date->Err_0)
    } else if vol_expiration_date is Err {
        Err(vol_expiration_date->Err_0)
    } else if vol_effective_date is Err {
        Err(vol_effective_date->Err_0)
    } else if fs_version is Err {
        Err(fs_version->Err_0)
    } else if app_data is Err {
        Err(app_data->Err_0)
    } else if payload.len() < 2041 {
        Err(DecodeError::Io)
    } else {
        Ok(
            PrimaryVolumeView {
                sys_id: sys_id->Ok_0,
                vol_id: vol_id->Ok_0,
                vol_space_size: vol_space_size->Ok_0,
                vol_set_size: vol_set_size->Ok_0,
                vol_seq_num: vol_seq_num->Ok_0,
                logical_block_size: logical_block_size->Ok_0,
                path_table_size: path_table_size->Ok_0,
                le_path_table: le_path_table->Ok_0,
                le_opt_path_table: le_opt_path_table->Ok_0,
                be_path_table: be_path_table->Ok_0,
                be_opt_path_table: be_opt_path_table->Ok_0,
                root_dir: root_dir->Ok_0,
                vol_set_id: vol_set_id->Ok_0,
                publisher_id: publisher_id->Ok_0,
                data_preparer_id: data_preparer_id->Ok_0,
                app_id: app_id->Ok_0,
                copyright_id: copyright_id->Ok_0,
                abstract_file_id: abstract_file_id->Ok_0,
                bibliographic_file_id: bibliographic_file_id->Ok_0,
                vol_create_date: vol_create_date->Ok_0,
                vol_modify_date: vol_modify_date->Ok_0,
                vol_expiration_date: vol_expiration_date->Ok_0,
                vol_effective_date: vol_effective_date->Ok_0,
                fs_version: fs_version->Ok_0,
                app_data: app_data->Ok_0,
            },
        )
    }
}

/// The primary volume descriptor with the payload `payload`, as a volume
/// descriptor.
pub open spec fn primary_descriptor(payload: Seq<u8>) -> Result<VolumeDescriptorView, DecodeError> {
    match primary_volume(payload) {
        Ok(volume) => Ok(VolumeDescriptorView::Primary(volume)),
        Err(e) => Err(e),
    }
}

/// Every decoded primary volume descriptor is well-formed.
pub proof fn lemma_primary_volume_is_well_formed(payload: Seq<u8>)
    ensures
        primary_volume(payload) matches Ok(volume) ==> volume.well_formed(),
{
    reveal(primary_volume);
    lemma_text_field_fits(payload, 1, 32);
    lemma_text_field_fits(payload, 33, 32);
    lemma_text_field_fits(payload, 183, 128);
    lemma_text_field_fits(payload, 311, 128);
    lemma_text_field_fits(payload, 439, 128);
    lemma_text_field_fits(payload, 567, 128);
    lemma_text_field_fits(payload, 695, 38);
    lemma_text_field_fits(payload, 733, 36);
    lemma_text_field_fits(payload, 769, 37);
    lemma_decoded_dates_are_well_formed(payload, 806);
    lemma_decoded_dates_are_well_formed(payload, 823);
    lemma_decoded_dates_are_well_formed(payload, 840);
    lemma_decoded_dates_are_well_formed(payload, 857);
}

/// More bytes change nothing about a primary volume descriptor, unless it
/// was cut short.
pub proof fn lemma_primary_volume_extends(part: Seq<u8>, whole: Seq<u8>)
    requires
        part.is_prefix_of(whole),
        primary_volume(part) != Err::<PrimaryVolumeView, DecodeError>(DecodeError::Io),
    ensures
        primary_volume(whole) == primary_volume(part),
{
    reveal(primary_volume);
    assert(part.take(part.len() as int) =~= whole.take(part.len() as int));
    lemma_shared_prefix(part, whole, part.len() as int);
}

impl PrimaryVolume {
    /// Decodes the payload of a primary volume descriptor.
    pub fn from_reader(reader: &mut Reader) -> (result: Result<VolumeDescriptor, DecodeError>)
        ensures
            descriptor_outcome(result) == primary_descriptor(old(reader).remaining()),
            result matches Ok(found) ==> found@.well_formed(),
            result is Ok ==> final(reader).advanced(*old(reader), 2041),
            result is Err ==> *final(reader) == *old(reader),
    {
        proof {
            reveal(primary_volume);
        }
        let payload = reader.rest();
        let sys_id = text_at(payload, 1, 32)?;
        let vol_id = text_at(payload, 33, 32)?;
        let vol_space_size: u32 = u32_le_at(payload, 73)?;
        let vol_set_size: u16 = u16_le_at(payload, 113)?;
        let vol_seq_num: u16 = u16_le_at(payload, 117)?;
        let logical_block_size: u16 = u16_le_at(payload, 121)?;
        let path_table_size: u32 = u32_le_at(payload, 125)?;
        let le_path_table: u32 = u32_le_at(payload, 133)?;
        let le_opt_path_table: u32 = u32_le_at(payload, 137)?;
        let be_path_table: u32 = u32_be_at(payload, 141)?;
        let be_opt_path_table: u32 = u32_be_at(payload, 145)?;
        let root_dir = DirectoryEntry { raw: raw_at::<34>(payload, 149)? };
        let vol_set_id = text_at(payload, 183, 128)?;
        let publisher_id = text_at(payload, 311, 128)?;
        let data_preparer_id = text_at(payload, 439, 128)?;
        let app_id = text_at(payload, 567, 128)?;
        let copyright_id = text_at(payload, 695, 38)?;
        let abstract_file_id = text_at(payload, 733, 36)?;
        let bibliographic_file_id = text_at(payload, 769, 37)?;
        let vol_create_date = date_str_at(payload, 806)?;
        let vol_modify_date = date_str_at(payload, 823)?;
        let vol_expiration_date = date_str_at(payload, 840)?;
        let vol_effective_date = date_str_at(payload, 857)?;
        let fs_version: u8 = u8_at(payload, 874)?;
        let app_data = raw_at::<512>(payload, 876)?;
        if payload.len() < PAYLOAD_SIZE {
            return Err(DecodeError::Io);
        }
        reader.advance(PAYLOAD_SIZE);
        Ok(
            VolumeDescriptor::Primary(
                PrimaryVolume {
                    sys_id,
                    vol_id,
                    vol_space_size,
                    vol_set_size,
                    vol_seq_num,
                    logical_block_size,
                    path_table_size,
                    le_path_table,
                    le_opt_path_table,
                    be_path_table,
                    be_opt_path_table,
                    root_dir,
                    vol_set_id,
                    publisher_id,
                    data_preparer_id,
                    app_id,
                    copyright_id,
                    abstract_file_id,
                    bibliographic_file_id,
                    vol_create_date,
                    vol_modify_date,
                    vol_expiration_date,
                    vol_effective_date,
                    fs_version,
                    app_data,
                },
            ),
        )
    }
}

} // verus!
