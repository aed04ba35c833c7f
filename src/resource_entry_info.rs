use vstd::prelude::*;

use crate::bytes::be_u32;

verus! {

/// The tag of the resource that holds the full-resolution image.
pub const VTF_LEGACY_RSRC_IMAGE: [u8; 4] = [0x30, 0, 0, 0];

/// One entry of a container's resource table: a type tag and where the
/// resource's data starts in the file.
#[allow(non_snake_case)]
#[derive(Debug)]
pub struct ResourceEntryInfo {
    /// Three tag bytes and one byte of padding.
    pub chTypeBytes: [u8; 4],
    /// Byte offset of the resource's data from the start of the file.
    pub resData: u32,
}

impl ResourceEntryInfo {
    /// The entry is the one stored in `s` at `at`: three tag bytes, a pad byte
    /// that reads as zero, then a big-endian offset.
    pub open spec fn read_from(&self, s: Seq<u8>, at: int) -> bool {
        &&& self.chTypeBytes@ == seq![s[at], s[at + 1], s[at + 2], 0u8]
        &&& self.resData == be_u32(s, at + 4)
    }

    /// Whether the tag is that of the full-resolution image.
    pub open spec fn spec_is_legacy_image(&self) -> bool {
        self.chTypeBytes@ == seq![0x30u8, 0u8, 0u8, 0u8]
    }

    /// Whether the tag is that of the full-resolution image.
    pub fn is_legacy_image(&self) -> (r: bool)
        ensures
            r == self.spec_is_legacy_image(),
    {
        let r = self.chTypeBytes[0] == 0x30 && self.chTypeBytes[1] == 0 && self.chTypeBytes[2] == 0
            && self.chTypeBytes[3] == 0;
        proof {
            if r {
                assert(self.chTypeBytes@ =~= seq![0x30u8, 0u8, 0u8, 0u8]);
            }
        }
        r
    }
}

} // verus!
