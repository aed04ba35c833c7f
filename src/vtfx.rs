use vstd::prelude::*;

use crate::block::{block_bytes, block_size, BlockKind};
use crate::bytes::{be_u16, be_u32, read_be_u16, read_be_u32};
use crate::error::VtfxError;
use crate::image_format::{at_least_one, mip_chain_len, registered_layout, GetNumMipMapLevels, ImageFormat};
use crate::resource_entry_info::ResourceEntryInfo;

verus! {

/// Major version of containers written for the Xbox 360.
pub const VTF_X360_MAJOR_VERSION: i32 = 0x0360;

/// Minor version of containers written for the Xbox 360.
pub const VTF_X360_MINOR_VERSION: i32 = 8;

/// Bytes in the fixed header; the resource table follows it.
pub const RESOURCE_START: usize = 60;

/// Bytes of all mip levels below one of `w` by `h` pixels of `bpp` bytes
/// each, where (`w`, `h`) are the halved dimensions of that level: every level
/// is counted, halving again, until both dimensions reach 0.
pub open spec fn lower_mips_bytes(w: int, h: int, bpp: int) -> int
    decreases w + h,
{
    if w <= 0 && h <= 0 || w < 0 || h < 0 {
        0
    } else {
        w * h * bpp + lower_mips_bytes(w / 2, h / 2, bpp)
    }
}

proof fn lemma_lower_mips_bytes_bound(w: int, h: int, bpp: int)
    requires
        w >= 0,
        h >= 0,
        bpp >= 0,
    ensures
        w * h * bpp <= lower_mips_bytes(w, h, bpp) <= 2 * (w * h * bpp),
    decreases w + h,
{
    if !(w <= 0 && h <= 0) {
        lemma_lower_mips_bytes_bound(w / 2, h / 2, bpp);
        assert(2 * ((w / 2) * (h / 2) * bpp) <= w * h * bpp) by (nonlinear_arith)
            requires
                0 <= 2 * (w / 2) <= w,
                0 <= 2 * (h / 2) <= h,
                bpp >= 0,
        ;
        assert(w * h * bpp >= 0) by (nonlinear_arith)
            requires
                w >= 0,
                h >= 0,
                bpp >= 0,
        ;
    } else {
        assert(w * h * bpp == 0) by (nonlinear_arith)
            requires
                w == 0,
        ;
    }
}

/// Decoded bytes per compressed byte of a block kind, for `channels`
/// channels of one byte: a 4x4 block of pixels over the block's size.
pub open spec fn bc_ratio(channels: int, kind: BlockKind) -> int {
    (16 * channels) / (block_bytes(kind) as int)
}

/// `b` with ASCII capitals lowered.
pub open spec fn ascii_lower(b: u8) -> u8 {
    if 0x41 <= b <= 0x5a { (b + 0x20) as u8 } else { b }
}

/// Whether a file extension is `vtf` or `vtfx`, in any case.
pub open spec fn is_vtfx_extension(ext: Seq<u8>) -> bool {
    &&& (ext.len() == 3 || ext.len() == 4)
    &&& ascii_lower(ext[0]) == 0x76u8
    &&& ascii_lower(ext[1]) == 0x74u8
    &&& ascii_lower(ext[2]) == 0x66u8
    &&& (ext.len() == 4 ==> ascii_lower(ext[3]) == 0x78u8)
}

fn lower_byte(b: u8) -> (r: u8)
    ensures
        r == ascii_lower(b),
{
    if 0x41 <= b && b <= 0x5a {
        b + 0x20
    } else {
        b
    }
}

/// Whether a file extension, as bytes, is `vtf` or `vtfx` in any case: the
/// extensions of the files that are read.
pub fn has_vtfx_extension(ext: &[u8]) -> (r: bool)
    ensures
        r == is_vtfx_extension(ext@),
{
    if ext.len() != 3 && ext.len() != 4 {
        return false;
    }
    lower_byte(ext[0]) == 0x76 && lower_byte(ext[1]) == 0x74 && lower_byte(ext[2]) == 0x66 && (ext.len() == 3
        || lower_byte(ext[3]) == 0x78)
}

/// Whether `s` begins with the marker `VTFX`.
pub open spec fn has_vtfx_magic(s: Seq<u8>) -> bool {
    &&& s.len() >= 4
    &&& s[0] == 0x56u8
    &&& s[1] == 0x54u8
    &&& s[2] == 0x46u8
    &&& s[3] == 0x58u8
}

/// The fixed header of a VTFX container. Floating-point fields are kept as
/// their IEEE-754 bit patterns.
#[allow(non_camel_case_types)]
#[derive(Debug)]
pub struct VTFXHEADER {
    pub version: [i32; 2],
    pub header_size: i32,
    pub flags: u32,
    /// Width of the data in the file.
    pub width: u16,
    /// Height of the data in the file.
    pub height: u16,
    /// Depth of the data in the file.
    pub depth: u16,
    pub num_frames: u16,
    /// Size of the preload data (which may extend into the image).
    pub preload_data_size: u16,
    /// Used to reconstruct the mapping dimensions.
    pub mip_skip_count: u8,
    pub num_resources: u8,
    /// Bits of the three reflectivity components.
    pub reflectivity_bits: [u32; 3],
    /// Bits of the bump scale.
    pub bump_scale_bits: u32,
    pub image_format: ImageFormat,
    pub low_res_image_sample: [u8; 4],
    pub compressed_size: u32,
    /// Levels of the mip chain: 1 when the no-mips flag is set.
    pub mip_count: i32,
}

impl VTFXHEADER {
    /// The header is the one stored at the start of `s`, big-endian, with its
    /// mip count derived from its flags and dimensions.
    pub open spec fn read_from(&self, s: Seq<u8>) -> bool {
        &&& self.version@ == seq![be_u32(s, 4) as i32, be_u32(s, 8) as i32]
        &&& self.header_size == be_u32(s, 12) as i32
        &&& self.flags == be_u32(s, 16)
        &&& self.width == be_u16(s, 20)
        &&& self.height == be_u16(s, 22)
        &&& self.depth == be_u16(s, 24)
        &&& self.num_frames == be_u16(s, 26)
        &&& self.preload_data_size == be_u16(s, 28)
        &&& self.mip_skip_count == s[30]
        &&& self.num_resources == s[31]
        &&& self.reflectivity_bits@ == seq![be_u32(s, 32) as u32, be_u32(s, 36) as u32, be_u32(s, 40) as u32]
        &&& self.bump_scale_bits == be_u32(s, 44)
        &&& self.image_format.spec_id() == (if -1 <= be_u32(s, 48) as i32 <= crate::image_format::LAST_FORMAT_ID {
            be_u32(s, 48) as i32 as int
        } else {
            -1
        })
        &&& self.low_res_image_sample@ == s.subrange(52, 56)
        &&& self.compressed_size == be_u32(s, 56)
        &&& self.mip_count == self.spec_mip_count()
    }

    pub open spec fn spec_no_mips(&self) -> bool {
        self.flags & 0x100 != 0
    }

    /// 1 when the no-mips flag is set, else the length of the mip chain of the
    /// texture's dimensions.
    pub open spec fn spec_mip_count(&self) -> int {
        if self.spec_no_mips() {
            1
        } else {
            mip_chain_len(
                at_least_one(self.width as int),
                at_least_one(self.height as int),
                at_least_one(self.depth as int),
            )
        }
    }

    pub open spec fn spec_has_alpha(&self) -> bool {
        self.flags & 0x2000 != 0
    }

    pub open spec fn spec_channels(&self) -> int {
        if self.spec_has_alpha() { 4 } else { 3 }
    }

    pub open spec fn spec_is_xbox(&self) -> bool {
        self.version[0] == VTF_X360_MAJOR_VERSION && self.version[1] == VTF_X360_MINOR_VERSION
    }

    /// Parses the fixed header at the start of `buffer`.
    pub fn from(buffer: &[u8]) -> (r: Result<VTFXHEADER, VtfxError>)
        ensures
            buffer@.len() < 4 ==> r == Err::<VTFXHEADER, VtfxError>(VtfxError::TruncatedInputError),
            buffer@.len() >= 4 && !has_vtfx_magic(buffer@) ==> r == Err::<VTFXHEADER, VtfxError>(
                VtfxError::FormatError,
            ),
            has_vtfx_magic(buffer@) && buffer@.len() < RESOURCE_START ==> r == Err::<VTFXHEADER, VtfxError>(
                VtfxError::TruncatedInputError,
            ),
            r is Ok <==> has_vtfx_magic(buffer@) && buffer@.len() >= RESOURCE_START,
            r matches Ok(h) ==> h.read_from(buffer@),
    {
        if buffer.len() < 4 {
            return Err(VtfxError::TruncatedInputError);
        }
        if !(buffer[0] == 0x56 && buffer[1] == 0x54 && buffer[2] == 0x46 && buffer[3] == 0x58) {
            return Err(VtfxError::FormatError);
        }
        if buffer.len() < RESOURCE_START {
            return Err(VtfxError::TruncatedInputError);
        }
        let version: [i32; 2] = [read_be_u32(buffer, 4) as i32, read_be_u32(buffer, 8) as i32];
        let header_size = read_be_u32(buffer, 12) as i32;
        let flags = read_be_u32(buffer, 16);
        let width = read_be_u16(buffer, 20);
        let height = read_be_u16(buffer, 22);
        let depth = read_be_u16(buffer, 24);
        let num_frames = read_be_u16(buffer, 26);
        let preload_data_size = read_be_u16(buffer, 28);
        let mip_skip_count = buffer[30];
        let num_resources = buffer[31];
        let reflectivity_bits: [u32; 3] = [read_be_u32(buffer, 32), read_be_u32(buffer, 36), read_be_u32(buffer, 40)];
        let bump_scale_bits = read_be_u32(buffer, 44);
        let image_format = ImageFormat::from_i32(read_be_u32(buffer, 48) as i32);
        let low_res_image_sample: [u8; 4] = [buffer[52], buffer[53], buffer[54], buffer[55]];
        let compressed_size = read_be_u32(buffer, 56);
        let mip_count = if flags & 0x100 != 0 {
            1
        } else {
            GetNumMipMapLevels(width as i32, height as i32, depth as i32)
        };
        let h = VTFXHEADER {
            version,
            header_size,
            flags,
            width,
            height,
            depth,
            num_frames,
            preload_data_size,
            mip_skip_count,
            num_resources,
            reflectivity_bits,
            bump_scale_bits,
            image_format,
            low_res_image_sample,
            compressed_size,
            mip_count,
        };
        assert(h.version@ =~= seq![be_u32(buffer@, 4) as i32, be_u32(buffer@, 8) as i32]);
        assert(h.reflectivity_bits@ =~= seq![
            be_u32(buffer@, 32) as u32,
            be_u32(buffer@, 36) as u32,
            be_u32(buffer@, 40) as u32,
        ]);
        assert(h.low_res_image_sample@ =~= buffer@.subrange(52, 56));
        Ok(h)
    }

    /// The resource table that follows the header in `buffer`: `num_resources`
    /// entries of 8 bytes, in file order. Fails when the buffer ends before the
    /// table does.
    pub fn get_resource_entry_infos(&self, buffer: &[u8]) -> (r: Result<Vec<ResourceEntryInfo>, VtfxError>)
        ensures
            r is Err <==> buffer@.len() < RESOURCE_START + 8 * self.num_resources,
            r is Err ==> r == Err::<Vec<ResourceEntryInfo>, VtfxError>(VtfxError::TruncatedInputError),
            r matches Ok(v) ==> v@.len() == self.num_resources && forall|k: int|
                0 <= k < v@.len() ==> (#[trigger] v@[k]).read_from(buffer@, RESOURCE_START + 8 * k),
    {
        let n = self.num_resources as usize;
        if buffer.len() < RESOURCE_START + 8 * n {
            return Err(VtfxError::TruncatedInputError);
        }
        let mut entries: Vec<ResourceEntryInfo> = Vec::new();
        let mut i: usize = RESOURCE_START;
        let mut k: usize = 0;
        while k < n
            invariant
                n == self.num_resources,
                buffer@.len() >= RESOURCE_START + 8 * n,
                k <= n,
                i == RESOURCE_START + 8 * k,
                entries@.len() == k,
                forall|j: int| 0 <= j < k ==> (#[trigger] entries@[j]).read_from(buffer@, RESOURCE_START + 8 * j),
            decreases n - k,
        {
            let entry = ResourceEntryInfo {
                chTypeBytes: [buffer[i], buffer[i + 1], buffer[i + 2], 0],
                resData: read_be_u32(buffer, i + 4),
            };
            assert(entry.chTypeBytes@ =~= seq![buffer@[i as int], buffer@[i + 1], buffer@[i + 2], 0u8]);
            entries.push(entry);
            i = i + 8;
            k = k + 1;
        }
        Ok(entries)
    }

    /// 4 when the alpha flag is set, else 3.
    pub fn get_channels(&self) -> (r: u16)
        ensures
            r == self.spec_channels(),
    {
        if self.has_alpha() {
            4
        } else {
            3
        }
    }

    pub fn has_alpha(&self) -> (r: bool)
        ensures
            r == self.spec_has_alpha(),
    {
        (self.flags & 0x2000) != 0
    }

    pub fn has_onebit_alpha(&self) -> (r: bool)
        ensures
            r == (self.flags & 0x1000 != 0),
    {
        (self.flags & 0x1000) != 0
    }

    pub fn all_mips(&self) -> (r: bool)
        ensures
            r == (self.flags & 0x400 != 0),
    {
        (self.flags & 0x400) != 0
    }

    pub fn no_mips(&self) -> (r: bool)
        ensures
            r == self.spec_no_mips(),
    {
        (self.flags & 0x100) != 0
    }

    /// Whether the flags hint that the blocks are of the larger (DXT5) kind.
    pub fn hint_dx5(&self) -> (r: bool)
        ensures
            r == (self.flags & 0x20 != 0),
    {
        (self.flags & 0x20) != 0
    }

    /// Bytes of the first mip level, decoded: width times height times
    /// channels.
    pub fn get_total_size(&self) -> (r: u64)
        ensures
            r == self.width * self.height * self.spec_channels(),
    {
        let c = self.get_channels();
        assert(self.width * self.height * c <= 65535 * 65535 * 4 && self.width * self.height <= 65535 * 65535)
            by (nonlinear_arith)
            requires
                self.width <= 65535,
                self.height <= 65535,
                c <= 4,
        ;
        self.width as u64 * self.height as u64 * c as u64
    }

    /// Whether the container was written for the Xbox 360.
    pub fn is_xbox(&self) -> (r: bool)
        ensures
            r == self.spec_is_xbox(),
    {
        self.version[0] == VTF_X360_MAJOR_VERSION && self.version[1] == VTF_X360_MINOR_VERSION
    }

    /// Start of the largest mip level in decoded data that stores the levels
    /// smallest first: the bytes of all smaller levels.
    pub fn get_mip0_start(&self) -> (r: u64)
        ensures
            r == lower_mips_bytes(self.width as int / 2, self.height as int / 2, self.spec_channels() * self.depth),
    {
        let bpp: u64 = self.get_channels() as u64 * self.depth as u64;
        let mut width: u64 = (self.width / 2) as u64;
        let mut height: u64 = (self.height / 2) as u64;
        let ghost total = lower_mips_bytes(width as int, height as int, bpp as int);
        proof {
            lemma_lower_mips_bytes_bound(width as int, height as int, bpp as int);
            assert(2 * (width * height * bpp) <= 2 * 32767 * 32767 * 262140) by (nonlinear_arith)
                requires
                    width <= 32767,
                    height <= 32767,
                    bpp <= 262140,
            ;
        }
        let mut lower_mip_sizes: u64 = 0;
        while width > 0 || height > 0
            invariant
                bpp <= 262140,
                width <= 32767,
                height <= 32767,
                total <= 2 * 32767 * 32767 * 262140,
                lower_mip_sizes + lower_mips_bytes(width as int, height as int, bpp as int) == total,
            decreases width + height,
        {
            proof {
                lemma_lower_mips_bytes_bound(width as int, height as int, bpp as int);
                lemma_lower_mips_bytes_bound(width as int / 2, height as int / 2, bpp as int);
                assert(width * height <= 32767 * 32767) by (nonlinear_arith)
                    requires
                        width <= 32767,
                        height <= 32767,
                ;
            }
            let mip_size = width * height * bpp;
            lower_mip_sizes = lower_mip_sizes + mip_size;
            width = width / 2;
            height = height / 2;
        }
        lower_mip_sizes
    }

    /// Start of the largest mip level in the compressed data: its decoded
    /// start over the compression ratio of the format's blocks.
    pub fn get_mip0_dxt_start(&self) -> (r: Result<u64, VtfxError>)
        ensures
            registered_layout(self.image_format) is None ==> r == Err::<u64, VtfxError>(
                VtfxError::UnsupportedFormatError,
            ),
            registered_layout(self.image_format) matches Some(l) ==> r == (match l.bc_format {
                Some(k) => Ok::<u64, VtfxError>(
                    (lower_mips_bytes(self.width as int / 2, self.height as int / 2, self.spec_channels() * self.depth)
                        / bc_ratio(self.spec_channels(), k)) as u64,
                ),
                None => Err(VtfxError::NotBlockCompressedError),
            }),
    {
        let mip0_start = self.get_mip0_start();
        let info = self.image_format.try_get_format_info()?;
        let bc_format = info.try_get_bc_format()?;
        let ratio = self.bc_ratio_of(bc_format);
        Ok(mip0_start / ratio)
    }

    /// Compressed bytes of the largest mip level: its decoded size over the
    /// compression ratio of the format's blocks.
    pub fn get_dxt_size(&self) -> (r: Result<u64, VtfxError>)
        ensures
            registered_layout(self.image_format) is None ==> r == Err::<u64, VtfxError>(
                VtfxError::UnsupportedFormatError,
            ),
            registered_layout(self.image_format) matches Some(l) ==> r == (match l.bc_format {
                Some(k) => Ok::<u64, VtfxError>(
                    (self.width * self.height * self.spec_channels() / bc_ratio(self.spec_channels(), k)) as u64,
                ),
                None => Err(VtfxError::NotBlockCompressedError),
            }),
    {
        let decoded_size = self.get_total_size();
        let info = self.image_format.try_get_format_info()?;
        let bc_format = info.try_get_bc_format()?;
        let ratio = self.bc_ratio_of(bc_format);
        Ok(decoded_size / ratio)
    }

    fn bc_ratio_of(&self, kind: BlockKind) -> (r: u64)
        ensures
            r == bc_ratio(self.spec_channels(), kind),
            r >= 3,
    {
        let size = block_size(kind);
        (16 * self.get_channels() as u64) / size as u64
    }
}

} // verus!