//! Decoder for the volume-descriptor sequence of an ISO 9660 disc image.
//!
//! An image starts with a reserved system area, followed by one sector per
//! volume descriptor. Every decoder in this crate is an executable function
//! whose result is stated against a mathematical description of the layout.

pub mod date;
pub mod error;
pub mod iso;
pub mod number;
pub mod reader;
pub mod text;
pub mod timestamp;
pub mod vd;

pub use crate::error::DecodeError;
pub use crate::iso::Iso;
pub use crate::reader::Reader;
pub use crate::timestamp::Timestamp;
pub use crate::vd::{
    BootRecord, DirectoryEntry, PrimaryVolume, SupplementaryVolume, VolumeDescriptor,
};
