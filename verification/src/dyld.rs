//! The list of loaded images that the dynamic linker keeps in the target.
//!
//! The task's dyld info gives the address of one structure, which names the
//! dynamic linker itself and an array with one entry for each other image.

use vstd::prelude::*;
use crate::bytes::{le_u32, le_u64, spec_le_u32, spec_le_u64};
use crate::image::{offset, spec_offset};

verus! {

/// Bytes of the all-image-infos structure, up to and including the path of
/// the dynamic linker.
pub const ALL_IMAGE_INFOS_SIZE: u32 = 200;

/// Bytes in one entry of the array of images.
pub const IMAGE_INFO_SIZE: u32 = 24;

/// What the walker reads of the all-image-infos structure.
#[derive(Clone, Copy, Debug, PartialEq, Eq, Structural)]
pub struct AllImageInfos {
    /// How many entries the array of images has.
    pub info_array_count: u32,
    /// Where the array of images lies.
    pub info_array: u64,
    /// Where the header of the dynamic linker lies.
    pub dyld_image_load_address: u64,
    /// Where the path of the dynamic linker lies.
    pub dyld_path: u64,
}

/// One entry of the array of images.
#[derive(Clone, Copy, Debug, PartialEq, Eq, Structural)]
pub struct ImageInfo {
    /// Where the header of the image lies.
    pub image_load_address: u64,
    /// Where the path of the image lies.
    pub image_file_path: u64,
}

/// What stands at one position of the list of images.
#[derive(Clone, Copy, Debug, PartialEq, Eq, Structural)]
pub enum Listed {
    /// The dynamic linker itself, which the structure names directly.
    Dyld(ImageInfo),
    /// An image whose entry of the array lies at `address` in the target.
    Entry { address: u64 },
    /// Nothing: the list has ended before this position.
    End,
    /// An entry that does not lie in the address space.
    Malformed,
}

impl AllImageInfos {
    /// The structure that `bytes` begin with, if they are enough for one.
    pub open spec fn spec_parse(bytes: Seq<u8>) -> Option<AllImageInfos> {
        if bytes.len() < ALL_IMAGE_INFOS_SIZE {
            None
        } else {
            Some(
                AllImageInfos {
                    info_array_count: spec_le_u32(bytes, 4),
                    info_array: spec_le_u64(bytes, 8),
                    dyld_image_load_address: spec_le_u64(bytes, 32),
                    dyld_path: spec_le_u64(bytes, 192),
                },
            )
        }
    }

    /// Where entry `index` of the array of images lies, each entry taking 24
    /// bytes: none beyond the last entry, and none beyond the end of the
    /// address space.
    pub open spec fn spec_entry_address(&self, index: u32) -> Option<u64> {
        if index < self.info_array_count {
            spec_offset(self.info_array, (index * 24) as u64)
        } else {
            None
        }
    }

    /// What stands at `position` of the list of images: the dynamic linker
    /// comes first, the entries of the array follow it in their order, and
    /// the list ends after the last of them.
    pub open spec fn spec_listed(&self, position: u64) -> Listed {
        if position == 0 {
            Listed::Dyld(self.dyld_entry())
        } else if position <= self.info_array_count {
            match self.spec_entry_address((position - 1) as u32) {
                Some(address) => Listed::Entry { address },
                None => Listed::Malformed,
            }
        } else {
            Listed::End
        }
    }

    /// How many images the list holds: the dynamic linker and the entries of
    /// the array.
    pub open spec fn spec_length(&self) -> nat {
        (self.info_array_count + 1) as nat
    }

    /// Reads the structure that `bytes` begin with.
    pub fn parse(bytes: &[u8]) -> (infos: Option<AllImageInfos>)
        ensures
            infos == Self::spec_parse(bytes@),
    {
        if bytes.len() < ALL_IMAGE_INFOS_SIZE as usize {
            None
        } else {
            Some(
                AllImageInfos {
                    info_array_count: le_u32(bytes, 4),
                    info_array: le_u64(bytes, 8),
                    dyld_image_load_address: le_u64(bytes, 32),
                    dyld_path: le_u64(bytes, 192),
                },
            )
        }
    }

    /// Where entry `index` of the array of images lies.
    pub fn entry_address(&self, index: u32) -> (address: Option<u64>)
        ensures
            address == self.spec_entry_address(index),
    {
        if index < self.info_array_count {
            offset(self.info_array, index as u64 * 24)
        } else {
            None
        }
    }

    /// The dynamic linker itself, as an entry like those of the array.
    pub open spec fn dyld_entry(&self) -> ImageInfo {
        ImageInfo {
            image_load_address: self.dyld_image_load_address,
            image_file_path: self.dyld_path,
        }
    }

    /// The dynamic linker itself, as an entry like those of the array.
    pub fn dyld(&self) -> (entry: ImageInfo)
        ensures
            entry == self.dyld_entry(),
    {
        ImageInfo {
            image_load_address: self.dyld_image_load_address,
            image_file_path: self.dyld_path,
        }
    }
}

impl AllImageInfos {
    /// What stands at `position` of the list of images.
    pub fn listed(&self, position: u64) -> (next: Listed)
        ensures
            next == self.spec_listed(position),
            position == 0 ==> next == Listed::Dyld(self.dyld_entry()),
            0 < position <= self.info_array_count ==> next == (match self.spec_entry_address(
                (position - 1) as u32,
            ) {
                Some(address) => Listed::Entry { address },
                None => Listed::Malformed,
            }),
            position > self.info_array_count ==> next == Listed::End,
            next is End <==> position >= self.spec_length(),
    {
        if position == 0 {
            Listed::Dyld(self.dyld())
        } else if position <= self.info_array_count as u64 {
            match self.entry_address((position - 1) as u32) {
                Some(address) => Listed::Entry { address },
                None => Listed::Malformed,
            }
        } else {
            Listed::End
        }
    }
}

impl ImageInfo {
    /// The entry that `bytes` begin with, if they are enough for one.
    pub open spec fn spec_parse(bytes: Seq<u8>) -> Option<ImageInfo> {
        if bytes.len() < IMAGE_INFO_SIZE {
            None
        } else {
            Some(
                ImageInfo {
                    image_load_address: spec_le_u64(bytes, 0),
                    image_file_path: spec_le_u64(bytes, 8),
                },
            )
        }
    }

    /// Reads the entry that `bytes` begin with.
    pub fn parse(bytes: &[u8]) -> (entry: Option<ImageInfo>)
        ensures
            entry == Self::spec_parse(bytes@),
    {
        if bytes.len() < IMAGE_INFO_SIZE as usize {
            None
        } else {
            Some(
                ImageInfo {
                    image_load_address: le_u64(bytes, 0),
                    image_file_path: le_u64(bytes, 8),
                },
            )
        }
    }
}

} // verus!
