use vstd::prelude::*;

use crate::block::BlockKind;
use crate::error::VtfxError;

verus! {

/// Texture formats as the engine numbers them on disk. Numbers that name no
/// format read as `IMAGE_FORMAT_UNKNOWN`.
#[allow(non_camel_case_types)]
#[derive(Debug, Clone, Copy, PartialEq, Eq, Structural, Hash)]
pub enum ImageFormat {
    IMAGE_FORMAT_UNKNOWN,
    IMAGE_FORMAT_RGBA8888,
    IMAGE_FORMAT_ABGR8888,
    IMAGE_FORMAT_RGB888,
    IMAGE_FORMAT_BGR888,
    IMAGE_FORMAT_RGB565,
    IMAGE_FORMAT_I8,
    IMAGE_FORMAT_IA88,
    IMAGE_FORMAT_P8,
    IMAGE_FORMAT_A8,
    IMAGE_FORMAT_RGB888_BLUESCREEN,
    IMAGE_FORMAT_BGR888_BLUESCREEN,
    IMAGE_FORMAT_ARGB8888,
    IMAGE_FORMAT_BGRA8888,
    IMAGE_FORMAT_DXT1,
    IMAGE_FORMAT_DXT3,
    IMAGE_FORMAT_DXT5,
    IMAGE_FORMAT_BGRX8888,
    IMAGE_FORMAT_BGR565,
    IMAGE_FORMAT_BGRX5551,
    IMAGE_FORMAT_BGRA4444,
    IMAGE_FORMAT_DXT1_ONEBITALPHA,
    IMAGE_FORMAT_BGRA5551,
    IMAGE_FORMAT_UV88,
    IMAGE_FORMAT_UVWQ8888,
    IMAGE_FORMAT_RGBA16161616F,
    IMAGE_FORMAT_RGBA16161616,
    IMAGE_FORMAT_UVLX8888,
    IMAGE_FORMAT_R32F,
    IMAGE_FORMAT_RGB323232F,
    IMAGE_FORMAT_RGBA32323232F,
    IMAGE_FORMAT_NV_DST16,
    IMAGE_FORMAT_NV_DST24,
    IMAGE_FORMAT_NV_INTZ,
    IMAGE_FORMAT_NV_RAWZ,
    IMAGE_FORMAT_ATI_DST16,
    IMAGE_FORMAT_ATI_DST24,
    IMAGE_FORMAT_NV_NULL,
    IMAGE_FORMAT_ATI2N,
    IMAGE_FORMAT_ATI1N,
    IMAGE_FORMAT_X360_DST16,
    IMAGE_FORMAT_X360_DST24,
    IMAGE_FORMAT_X360_DST24F,
    IMAGE_FORMAT_LINEAR_BGRX8888,
    IMAGE_FORMAT_LINEAR_RGBA8888,
    IMAGE_FORMAT_LINEAR_ABGR8888,
    IMAGE_FORMAT_LINEAR_ARGB8888,
    IMAGE_FORMAT_LINEAR_BGRA8888,
    IMAGE_FORMAT_LINEAR_RGB888,
    IMAGE_FORMAT_LINEAR_BGR888,
    IMAGE_FORMAT_LINEAR_BGRX5551,
    IMAGE_FORMAT_LINEAR_I8,
    IMAGE_FORMAT_LINEAR_RGBA16161616,
    IMAGE_FORMAT_LE_BGRX8888,
    IMAGE_FORMAT_LE_BGRA8888,
    NUM_IMAGE_FORMATS,
}

/// The largest number that names a variant of `ImageFormat`.
pub const LAST_FORMAT_ID: i32 = 54;

impl ImageFormat {
    /// The number that stands for the format on disk.
    pub open spec fn spec_id(self) -> int {
        match self {
            ImageFormat::IMAGE_FORMAT_UNKNOWN => -1,
            ImageFormat::IMAGE_FORMAT_RGBA8888 => 0,
            ImageFormat::IMAGE_FORMAT_ABGR8888 => 1,
            ImageFormat::IMAGE_FORMAT_RGB888 => 2,
            ImageFormat::IMAGE_FORMAT_BGR888 => 3,
            ImageFormat::IMAGE_FORMAT_RGB565 => 4,
            ImageFormat::IMAGE_FORMAT_I8 => 5,
            ImageFormat::IMAGE_FORMAT_IA88 => 6,
            ImageFormat::IMAGE_FORMAT_P8 => 7,
            ImageFormat::IMAGE_FORMAT_A8 => 8,
            ImageFormat::IMAGE_FORMAT_RGB888_BLUESCREEN => 9,
            ImageFormat::IMAGE_FORMAT_BGR888_BLUESCREEN => 10,
            ImageFormat::IMAGE_FORMAT_ARGB8888 => 11,
            ImageFormat::IMAGE_FORMAT_BGRA8888 => 12,
            ImageFormat::IMAGE_FORMAT_DXT1 => 13,
            ImageFormat::IMAGE_FORMAT_DXT3 => 14,
            ImageFormat::IMAGE_FORMAT_DXT5 => 15,
            ImageFormat::IMAGE_FORMAT_BGRX8888 => 16,
            ImageFormat::IMAGE_FORMAT_BGR565 => 17,
            ImageFormat::IMAGE_FORMAT_BGRX5551 => 18,
            ImageFormat::IMAGE_FORMAT_BGRA4444 => 19,
            ImageFormat::IMAGE_FORMAT_DXT1_ONEBITALPHA => 20,
            ImageFormat::IMAGE_FORMAT_BGRA5551 => 21,
            ImageFormat::IMAGE_FORMAT_UV88 => 22,
            ImageFormat::IMAGE_FORMAT_UVWQ8888 => 23,
            ImageFormat::IMAGE_FORMAT_RGBA16161616F => 24,
            ImageFormat::IMAGE_FORMAT_RGBA16161616 => 25,
            ImageFormat::IMAGE_FORMAT_UVLX8888 => 26,
            ImageFormat::IMAGE_FORMAT_R32F => 27,
            ImageFormat::IMAGE_FORMAT_RGB323232F => 28,
            ImageFormat::IMAGE_FORMAT_RGBA32323232F => 29,
            ImageFormat::IMAGE_FORMAT_NV_DST16 => 30,
            ImageFormat::IMAGE_FORMAT_NV_DST24 => 31,
            ImageFormat::IMAGE_FORMAT_NV_INTZ => 32,
            ImageFormat::IMAGE_FORMAT_NV_RAWZ => 33,
            ImageFormat::IMAGE_FORMAT_ATI_DST16 => 34,
            ImageFormat::IMAGE_FORMAT_ATI_DST24 => 35,
            ImageFormat::IMAGE_FORMAT_NV_NULL => 36,
            ImageFormat::IMAGE_FORMAT_ATI2N => 37,
            ImageFormat::IMAGE_FORMAT_ATI1N => 38,
            ImageFormat::IMAGE_FORMAT_X360_DST16 => 39,
            ImageFormat::IMAGE_FORMAT_X360_DST24 => 40,
            ImageFormat::IMAGE_FORMAT_X360_DST24F => 41,
            ImageFormat::IMAGE_FORMAT_LINEAR_BGRX8888 => 42,
            ImageFormat::IMAGE_FORMAT_LINEAR_RGBA8888 => 43,
            ImageFormat::IMAGE_FORMAT_LINEAR_ABGR8888 => 44,
            ImageFormat::IMAGE_FORMAT_LINEAR_ARGB8888 => 45,
            ImageFormat::IMAGE_FORMAT_LINEAR_BGRA8888 => 46,
            ImageFormat::IMAGE_FORMAT_LINEAR_RGB888 => 47,
            ImageFormat::IMAGE_FORMAT_LINEAR_BGR888 => 48,
            ImageFormat::IMAGE_FORMAT_LINEAR_BGRX5551 => 49,
            ImageFormat::IMAGE_FORMAT_LINEAR_I8 => 50,
            ImageFormat::IMAGE_FORMAT_LINEAR_RGBA16161616 => 51,
            ImageFormat::IMAGE_FORMAT_LE_BGRX8888 => 52,
            ImageFormat::IMAGE_FORMAT_LE_BGRA8888 => 53,
            ImageFormat::NUM_IMAGE_FORMATS => 54,
        }
    }

    /// The number that stands for the format on disk.
    pub fn id(&self) -> (r: i32)
        ensures
            r == self.spec_id(),
    {
        match self {
            ImageFormat::IMAGE_FORMAT_UNKNOWN => -1,
            ImageFormat::IMAGE_FORMAT_RGBA8888 => 0,
            ImageFormat::IMAGE_FORMAT_ABGR8888 => 1,
            ImageFormat::IMAGE_FORMAT_RGB888 => 2,
            ImageFormat::IMAGE_FORMAT_BGR888 => 3,
            ImageFormat::IMAGE_FORMAT_RGB565 => 4,
            ImageFormat::IMAGE_FORMAT_I8 => 5,
            ImageFormat::IMAGE_FORMAT_IA88 => 6,
            ImageFormat::IMAGE_FORMAT_P8 => 7,
            ImageFormat::IMAGE_FORMAT_A8 => 8,
            ImageFormat::IMAGE_FORMAT_RGB888_BLUESCREEN => 9,
            ImageFormat::IMAGE_FORMAT_BGR888_BLUESCREEN => 10,
            ImageFormat::IMAGE_FORMAT_ARGB8888 => 11,
            ImageFormat::IMAGE_FORMAT_BGRA8888 => 12,
            ImageFormat::IMAGE_FORMAT_DXT1 => 13,
            ImageFormat::IMAGE_FORMAT_DXT3 => 14,
            ImageFormat::IMAGE_FORMAT_DXT5 => 15,
            ImageFormat::IMAGE_FORMAT_BGRX8888 => 16,
            ImageFormat::IMAGE_FORMAT_BGR565 => 17,
            ImageFormat::IMAGE_FORMAT_BGRX5551 => 18,
            ImageFormat::IMAGE_FORMAT_BGRA4444 => 19,
            ImageFormat::IMAGE_FORMAT_DXT1_ONEBITALPHA => 20,
            ImageFormat::IMAGE_FORMAT_BGRA5551 => 21,
            ImageFormat::IMAGE_FORMAT_UV88 => 22,
            ImageFormat::IMAGE_FORMAT_UVWQ8888 => 23,
            ImageFormat::IMAGE_FORMAT_RGBA16161616F => 24,
            ImageFormat::IMAGE_FORMAT_RGBA16161616 => 25,
            ImageFormat::IMAGE_FORMAT_UVLX8888 => 26,
            ImageFormat::IMAGE_FORMAT_R32F => 27,
            ImageFormat::IMAGE_FORMAT_RGB323232F => 28,
            ImageFormat::IMAGE_FORMAT_RGBA32323232F => 29,
            ImageFormat::IMAGE_FORMAT_NV_DST16 => 30,
            ImageFormat::IMAGE_FORMAT_NV_DST24 => 31,
            ImageFormat::IMAGE_FORMAT_NV_INTZ => 32,
            ImageFormat::IMAGE_FORMAT_NV_RAWZ => 33,
            ImageFormat::IMAGE_FORMAT_ATI_DST16 => 34,
            ImageFormat::IMAGE_FORMAT_ATI_DST24 => 35,
            ImageFormat::IMAGE_FORMAT_NV_NULL => 36,
            ImageFormat::IMAGE_FORMAT_ATI2N => 37,
            ImageFormat::IMAGE_FORMAT_ATI1N => 38,
            ImageFormat::IMAGE_FORMAT_X360_DST16 => 39,
            ImageFormat::IMAGE_FORMAT_X360_DST24 => 40,
            ImageFormat::IMAGE_FORMAT_X360_DST24F => 41,
            ImageFormat::IMAGE_FORMAT_LINEAR_BGRX8888 => 42,
            ImageFormat::IMAGE_FORMAT_LINEAR_RGBA8888 => 43,
            ImageFormat::IMAGE_FORMAT_LINEAR_ABGR8888 => 44,
            ImageFormat::IMAGE_FORMAT_LINEAR_ARGB8888 => 45,
            ImageFormat::IMAGE_FORMAT_LINEAR_BGRA8888 => 46,
            ImageFormat::IMAGE_FORMAT_LINEAR_RGB888 => 47,
            ImageFormat::IMAGE_FORMAT_LINEAR_BGR888 => 48,
            ImageFormat::IMAGE_FORMAT_LINEAR_BGRX5551 => 49,
            ImageFormat::IMAGE_FORMAT_LINEAR_I8 => 50,
            ImageFormat::IMAGE_FORMAT_LINEAR_RGBA16161616 => 51,
            ImageFormat::IMAGE_FORMAT_LE_BGRX8888 => 52,
            ImageFormat::IMAGE_FORMAT_LE_BGRA8888 => 53,
            ImageFormat::NUM_IMAGE_FORMATS => 54,
        }
    }

    /// The format that `v` stands for on disk; `IMAGE_FORMAT_UNKNOWN` when it
    /// stands for none.
    pub fn from_i32(v: i32) -> (r: ImageFormat)
        ensures
            -1 <= v <= LAST_FORMAT_ID ==> r.spec_id() == v,
            !(-1 <= v <= LAST_FORMAT_ID) ==> r == ImageFormat::IMAGE_FORMAT_UNKNOWN,
    {
        match v {
            0 => ImageFormat::IMAGE_FORMAT_RGBA8888,
            1 => ImageFormat::IMAGE_FORMAT_ABGR8888,
            2 => ImageFormat::IMAGE_FORMAT_RGB888,
            3 => ImageFormat::IMAGE_FORMAT_BGR888,
            4 => ImageFormat::IMAGE_FORMAT_RGB565,
            5 => ImageFormat::IMAGE_FORMAT_I8,
            6 => ImageFormat::IMAGE_FORMAT_IA88,
            7 => ImageFormat::IMAGE_FORMAT_P8,
            8 => ImageFormat::IMAGE_FORMAT_A8,
            9 => ImageFormat::IMAGE_FORMAT_RGB888_BLUESCREEN,
            10 => ImageFormat::IMAGE_FORMAT_BGR888_BLUESCREEN,
            11 => ImageFormat::IMAGE_FORMAT_ARGB8888,
            12 => ImageFormat::IMAGE_FORMAT_BGRA8888,
            13 => ImageFormat::IMAGE_FORMAT_DXT1,
            14 => ImageFormat::IMAGE_FORMAT_DXT3,
            15 => ImageFormat::IMAGE_FORMAT_DXT5,
            16 => ImageFormat::IMAGE_FORMAT_BGRX8888,
            17 => ImageFormat::IMAGE_FORMAT_BGR565,
            18 => ImageFormat::IMAGE_FORMAT_BGRX5551,
            19 => ImageFormat::IMAGE_FORMAT_BGRA4444,
            20 => ImageFormat::IMAGE_FORMAT_DXT1_ONEBITALPHA,
            21 => ImageFormat::IMAGE_FORMAT_BGRA5551,
            22 => ImageFormat::IMAGE_FORMAT_UV88,
            23 => ImageFormat::IMAGE_FORMAT_UVWQ8888,
            24 => ImageFormat::IMAGE_FORMAT_RGBA16161616F,
            25 => ImageFormat::IMAGE_FORMAT_RGBA16161616,
            26 => ImageFormat::IMAGE_FORMAT_UVLX8888,
            27 => ImageFormat::IMAGE_FORMAT_R32F,
            28 => ImageFormat::IMAGE_FORMAT_RGB323232F,
            29 => ImageFormat::IMAGE_FORMAT_RGBA32323232F,
            30 => ImageFormat::IMAGE_FORMAT_NV_DST16,
            31 => ImageFormat::IMAGE_FORMAT_NV_DST24,
            32 => ImageFormat::IMAGE_FORMAT_NV_INTZ,
            33 => ImageFormat::IMAGE_FORMAT_NV_RAWZ,
            34 => ImageFormat::IMAGE_FORMAT_ATI_DST16,
            35 => ImageFormat::IMAGE_FORMAT_ATI_DST24,
            36 => ImageFormat::IMAGE_FORMAT_NV_NULL,
            37 => ImageFormat::IMAGE_FORMAT_ATI2N,
            38 => ImageFormat::IMAGE_FORMAT_ATI1N,
            39 => ImageFormat::IMAGE_FORMAT_X360_DST16,
            40 => ImageFormat::IMAGE_FORMAT_X360_DST24,
            41 => ImageFormat::IMAGE_FORMAT_X360_DST24F,
            42 => ImageFormat::IMAGE_FORMAT_LINEAR_BGRX8888,
            43 => ImageFormat::IMAGE_FORMAT_LINEAR_RGBA8888,
            44 => ImageFormat::IMAGE_FORMAT_LINEAR_ABGR8888,
            45 => ImageFormat::IMAGE_FORMAT_LINEAR_ARGB8888,
            46 => ImageFormat::IMAGE_FORMAT_LINEAR_BGRA8888,
            47 => ImageFormat::IMAGE_FORMAT_LINEAR_RGB888,
            48 => ImageFormat::IMAGE_FORMAT_LINEAR_BGR888,
            49 => ImageFormat::IMAGE_FORMAT_LINEAR_BGRX5551,
            50 => ImageFormat::IMAGE_FORMAT_LINEAR_I8,
            51 => ImageFormat::IMAGE_FORMAT_LINEAR_RGBA16161616,
            52 => ImageFormat::IMAGE_FORMAT_LE_BGRX8888,
            53 => ImageFormat::IMAGE_FORMAT_LE_BGRA8888,
            54 => ImageFormat::NUM_IMAGE_FORMATS,
            _ => ImageFormat::IMAGE_FORMAT_UNKNOWN,
        }
    }
}

impl Default for ImageFormat {
    fn default() -> (r: ImageFormat)
        ensures
            r == ImageFormat::IMAGE_FORMAT_UNKNOWN,
    {
        ImageFormat::IMAGE_FORMAT_UNKNOWN
    }
}

/// The larger of `v` and 1.
pub open spec fn at_least_one(v: int) -> int {
    if v < 1 { 1 } else { v }
}

/// Length of the mip chain that starts at the given dimensions (each at least
/// 1): the first level is counted, then every dimension is halved and raised
/// back to 1 until all three are 1.
pub open spec fn mip_chain_len(w: int, h: int, d: int) -> int
    decreases w + h + d,
{
    if w < 1 || h < 1 || d < 1 || (w == 1 && h == 1 && d == 1) {
        1
    } else {
        1 + mip_chain_len(at_least_one(w / 2), at_least_one(h / 2), at_least_one(d / 2))
    }
}

/// A single pixel, whatever depth of 1 or less it is given, has a chain of one
/// level.
pub proof fn lemma_single_pixel_has_one_level(depth: int)
    requires
        depth <= 1,
    ensures
        mip_chain_len(1, 1, at_least_one(depth)) == 1,
{
}

/// The chain never has more levels than its largest dimension.
proof fn lemma_mip_chain_len_bound(w: int, h: int, d: int, m: int)
    requires
        1 <= w <= m,
        1 <= h <= m,
        1 <= d <= m,
    ensures
        1 <= mip_chain_len(w, h, d) <= m,
    decreases w + h + d,
{
    if !(w == 1 && h == 1 && d == 1) {
        lemma_mip_chain_len_bound(at_least_one(w / 2), at_least_one(h / 2), at_least_one(d / 2), m / 2);
    }
}

/// Number of mip levels of a texture of the given dimensions. Each dimension
/// is raised to 1 before counting, so a depth of zero or less counts as 1.
#[allow(non_snake_case)]
pub fn GetNumMipMapLevels(width: i32, height: i32, depth: i32) -> (r: i32)
    ensures
        r == mip_chain_len(at_least_one(width as int), at_least_one(height as int), at_least_one(depth as int)),
{
    let mut width: i32 = if width < 1 { 1 } else { width };
    let mut height: i32 = if height < 1 { 1 } else { height };
    let mut depth: i32 = if depth < 1 { 1 } else { depth };
    let ghost total = mip_chain_len(width as int, height as int, depth as int);
    proof {
        lemma_mip_chain_len_bound(width as int, height as int, depth as int, i32::MAX as int);
    }
    let mut num_mip_levels: i32 = 1;
    while !(width == 1 && height == 1 && depth == 1)
        invariant
            1 <= width,
            1 <= height,
            1 <= depth,
            total <= i32::MAX,
            num_mip_levels >= 1,
            num_mip_levels + mip_chain_len(width as int, height as int, depth as int) == total + 1,
        decreases width + height + depth,
    {
        proof {
            lemma_mip_chain_len_bound(at_least_one(width / 2), at_least_one(height / 2), at_least_one(depth / 2), i32::MAX as int);
        }
        width = width / 2;
        height = height / 2;
        depth = depth / 2;
        if width < 1 {
            width = 1;
        }
        if height < 1 {
            height = 1;
        }
        if depth < 1 {
            depth = 1;
        }
        num_mip_levels = num_mip_levels + 1;
    }
    num_mip_levels
}

/// Bytes taken by the first `skip` levels of a mip chain whose first level is
/// `w` by `h` pixels of `bpp` bytes each; the chain stops at 1 by 1.
pub open spec fn mip_bytes_skipped(w: int, h: int, bpp: int, skip: int) -> int
    decreases skip,
{
    if skip <= 0 || w < 1 || h < 1 {
        0
    } else if w == 1 && h == 1 {
        bpp
    } else {
        w * h * bpp + mip_bytes_skipped(at_least_one(w / 2), at_least_one(h / 2), bpp, skip - 1)
    }
}

/// Byte offset of mip level `skip_mip_levels` in data that stores the levels
/// largest first. Dimensions below 1 count as 1.
#[allow(non_snake_case)]
pub fn GetMipMapLevelByteOffset(width: i32, height: i32, image_format: &image_format_info, skip_mip_levels: i32) -> (r:
    usize)
    requires
        image_format@.wf(),
        mip_bytes_skipped(
            at_least_one(width as int),
            at_least_one(height as int),
            image_format.depth * image_format.channels,
            skip_mip_levels as int,
        ) <= usize::MAX,
    ensures
        r == mip_bytes_skipped(
            at_least_one(width as int),
            at_least_one(height as int),
            image_format.depth * image_format.channels,
            skip_mip_levels as int,
        ),
{
    assert(image_format@.channels == image_format.channels && image_format@.depth == image_format.depth);
    let bpp: usize = image_format.depth as usize * image_format.channels as usize;
    let mut width: usize = if width < 1 { 1 } else { width as usize };
    let mut height: usize = if height < 1 { 1 } else { height as usize };
    let mut skip_mip_levels: i32 = skip_mip_levels;
    let ghost total = mip_bytes_skipped(width as int, height as int, bpp as int, skip_mip_levels as int);
    let mut offset: usize = 0;
    while skip_mip_levels > 0
        invariant_except_break
            1 <= width,
            1 <= height,
            1 <= bpp,
            total <= usize::MAX,
            offset + mip_bytes_skipped(width as int, height as int, bpp as int, skip_mip_levels as int) == total,
        ensures
            offset == total,
        decreases skip_mip_levels,
    {
        let ghost rest = mip_bytes_skipped(at_least_one(width as int / 2), at_least_one(height as int / 2), bpp as int, skip_mip_levels - 1);
        assert(width * height <= width * height * bpp) by (nonlinear_arith)
            requires
                1 <= bpp,
                1 <= width,
                1 <= height,
        ;
        assert(0 <= rest) by {
            lemma_mip_bytes_skipped_nonneg(at_least_one(width as int / 2), at_least_one(height as int / 2), bpp as int, skip_mip_levels - 1);
        }
        assert(width * height * bpp <= mip_bytes_skipped(width as int, height as int, bpp as int, skip_mip_levels as int))
            by {
            if width == 1 && height == 1 {
                assert(width * height * bpp == bpp) by (nonlinear_arith)
                    requires
                        width == 1,
                        height == 1,
                ;
            }
        }
        offset = offset + width * height * bpp;
        if width == 1 && height == 1 {
            break;
        }
        width = width / 2;
        height = height / 2;
        if width < 1 {
            width = 1;
        }
        if height < 1 {
            height = 1;
        }
        skip_mip_levels = skip_mip_levels - 1;
    }
    offset
}

proof fn lemma_mip_bytes_skipped_nonneg(w: int, h: int, bpp: int, skip: int)
    requires
        bpp >= 0,
    ensures
        mip_bytes_skipped(w, h, bpp, skip) >= 0,
    decreases skip,
{
    if skip > 0 && w >= 1 && h >= 1 && !(w == 1 && h == 1) {
        lemma_mip_bytes_skipped_nonneg(at_least_one(w / 2), at_least_one(h / 2), bpp, skip - 1);
        assert(w * h * bpp >= 0) by (nonlinear_arith)
            requires
                w >= 1,
                h >= 1,
                bpp >= 0,
        ;
    }
}

/// What a pixel layout says, as plain values.
pub ghost struct FormatLayout {
    pub channels: u16,
    pub depth: u16,
    pub channel_order: Seq<u16>,
    pub bc_format: Option<BlockKind>,
}

impl FormatLayout {
    /// Three or four channels of 1, 2 or 4 bytes, and an order that is a
    /// permutation of the channel numbers.
    pub open spec fn wf(self) -> bool {
        &&& (self.channels == 3 || self.channels == 4)
        &&& (self.depth == 1 || self.depth == 2 || self.depth == 4)
        &&& self.channel_order.len() == self.channels
        &&& forall|c: int| 0 <= c < self.channels ==> #[trigger] self.channel_order[c] < self.channels
        &&& forall|c: int, e: int|
            0 <= c < e < self.channels ==> #[trigger] self.channel_order[c] != #[trigger] self.channel_order[e]
    }
}

/// The pixel layout of a texture format.
#[allow(non_camel_case_types)]
#[derive(Clone)]
pub struct image_format_info {
    /// Number of colour channels.
    pub channels: u16,
    /// Bytes per channel.
    pub depth: u16,
    /// For each output channel (R, G, B, A), the source channel that feeds it.
    pub channel_order: Vec<u16>,
    /// The block compression of the data, if any.
    pub bc_format: Option<BlockKind>,
}

impl View for image_format_info {
    type V = FormatLayout;

    open spec fn view(&self) -> FormatLayout {
        FormatLayout {
            channels: self.channels,
            depth: self.depth,
            channel_order: self.channel_order@,
            bc_format: self.bc_format,
        }
    }
}

/// The registered pixel layout of each supported format.
pub open spec fn registered_layout(format: ImageFormat) -> Option<FormatLayout> {
    match format {
        ImageFormat::IMAGE_FORMAT_DXT1 => Some(FormatLayout { channels: 3, depth: 1, channel_order: seq![0, 1, 2], bc_format: Some(BlockKind::Bc1) }),
        ImageFormat::IMAGE_FORMAT_DXT5 => Some(FormatLayout { channels: 4, depth: 1, channel_order: seq![0, 1, 2, 3], bc_format: Some(BlockKind::Bc3) }),
        ImageFormat::IMAGE_FORMAT_RGBA16161616 => Some(FormatLayout { channels: 4, depth: 2, channel_order: seq![0, 1, 2, 3], bc_format: None }),
        ImageFormat::IMAGE_FORMAT_RGBA8888 => Some(FormatLayout { channels: 4, depth: 1, channel_order: seq![0, 1, 2, 3], bc_format: None }),
        ImageFormat::IMAGE_FORMAT_LINEAR_RGBA8888 => Some(FormatLayout { channels: 4, depth: 1, channel_order: seq![0, 1, 2, 3], bc_format: None }),
        ImageFormat::IMAGE_FORMAT_ABGR8888 => Some(FormatLayout { channels: 4, depth: 1, channel_order: seq![3, 2, 1, 0], bc_format: None }),
        ImageFormat::IMAGE_FORMAT_LINEAR_ABGR8888 => Some(FormatLayout { channels: 4, depth: 1, channel_order: seq![3, 2, 1, 0], bc_format: None }),
        ImageFormat::IMAGE_FORMAT_ARGB8888 => Some(FormatLayout { channels: 4, depth: 1, channel_order: seq![3, 2, 1, 0], bc_format: None }),
        ImageFormat::IMAGE_FORMAT_LINEAR_ARGB8888 => Some(FormatLayout { channels: 4, depth: 1, channel_order: seq![3, 2, 1, 0], bc_format: None }),
        ImageFormat::IMAGE_FORMAT_RGB888 => Some(FormatLayout { channels: 3, depth: 1, channel_order: seq![0, 1, 2], bc_format: None }),
        ImageFormat::IMAGE_FORMAT_LINEAR_RGB888 => Some(FormatLayout { channels: 3, depth: 1, channel_order: seq![0, 1, 2], bc_format: None }),
        ImageFormat::IMAGE_FORMAT_BGR888 => Some(FormatLayout { channels: 3, depth: 1, channel_order: seq![2, 1, 0], bc_format: None }),
        ImageFormat::IMAGE_FORMAT_LINEAR_BGR888 => Some(FormatLayout { channels: 3, depth: 1, channel_order: seq![2, 1, 0], bc_format: None }),
        ImageFormat::IMAGE_FORMAT_BGRA8888 => Some(FormatLayout { channels: 4, depth: 1, channel_order: seq![2, 1, 0, 3], bc_format: None }),
        ImageFormat::IMAGE_FORMAT_LINEAR_BGRA8888 => Some(FormatLayout { channels: 4, depth: 1, channel_order: seq![2, 1, 0, 3], bc_format: None }),
        ImageFormat::IMAGE_FORMAT_BGRX8888 => Some(FormatLayout { channels: 4, depth: 1, channel_order: seq![2, 1, 0, 3], bc_format: None }),
        ImageFormat::IMAGE_FORMAT_LINEAR_BGRX8888 => Some(FormatLayout { channels: 4, depth: 1, channel_order: seq![2, 1, 0, 3], bc_format: None }),
        _ => None,
    }
}

impl image_format_info {
    fn new(channels: u16, depth: u16, channel_order: Vec<u16>) -> (r: image_format_info)
        ensures
            r@ == (FormatLayout { channels, depth, channel_order: channel_order@, bc_format: None }),
    {
        image_format_info { channels, depth, channel_order, bc_format: None }
    }

    fn new_with_bc(channels: u16, depth: u16, channel_order: Vec<u16>, bc_format: Option<BlockKind>) -> (r:
        image_format_info)
        ensures
            r@ == (FormatLayout { channels, depth, channel_order: channel_order@, bc_format }),
    {
        image_format_info { channels, depth, channel_order, bc_format }
    }

    /// The block compression of the layout; an error for uncompressed layouts.
    pub fn try_get_bc_format(&self) -> (r: Result<BlockKind, VtfxError>)
        ensures
            r == (match self.bc_format {
                Some(k) => Ok::<BlockKind, VtfxError>(k),
                None => Err(VtfxError::NotBlockCompressedError),
            }),
    {
        match self.bc_format {
            Some(k) => Ok(k),
            None => Err(VtfxError::NotBlockCompressedError),
        }
    }
}

impl ImageFormat {
    /// The registered pixel layout of the format, if it has one.
    pub fn get_format_info(&self) -> (r: Option<image_format_info>)
        ensures
            r is None <==> registered_layout(*self) is None,
            r matches Some(info) ==> registered_layout(*self) == Some(info@) && info@.wf(),
    {
        match self {
            ImageFormat::IMAGE_FORMAT_DXT1 => Some(image_format_info::new_with_bc(3, 1, vec![0, 1, 2], Some(BlockKind::Bc1))),
            ImageFormat::IMAGE_FORMAT_DXT5 => Some(image_format_info::new_with_bc(4, 1, vec![0, 1, 2, 3], Some(BlockKind::Bc3))),
            ImageFormat::IMAGE_FORMAT_RGBA16161616 => Some(image_format_info::new(4, 2, vec![0, 1, 2, 3])),
            ImageFormat::IMAGE_FORMAT_RGBA8888 => Some(image_format_info::new(4, 1, vec![0, 1, 2, 3])),
            ImageFormat::IMAGE_FORMAT_LINEAR_RGBA8888 => Some(image_format_info::new(4, 1, vec![0, 1, 2, 3])),
            ImageFormat::IMAGE_FORMAT_ABGR8888 => Some(image_format_info::new(4, 1, vec![3, 2, 1, 0])),
            ImageFormat::IMAGE_FORMAT_LINEAR_ABGR8888 => Some(image_format_info::new(4, 1, vec![3, 2, 1, 0])),
            ImageFormat::IMAGE_FORMAT_ARGB8888 => Some(image_format_info::new(4, 1, vec![3, 2, 1, 0])),
            ImageFormat::IMAGE_FORMAT_LINEAR_ARGB8888 => Some(image_format_info::new(4, 1, vec![3, 2, 1, 0])),
            ImageFormat::IMAGE_FORMAT_RGB888 => Some(image_format_info::new(3, 1, vec![0, 1, 2])),
            ImageFormat::IMAGE_FORMAT_LINEAR_RGB888 => Some(image_format_info::new(3, 1, vec![0, 1, 2])),
            ImageFormat::IMAGE_FORMAT_BGR888 => Some(image_format_info::new(3, 1, vec![2, 1, 0])),
            ImageFormat::IMAGE_FORMAT_LINEAR_BGR888 => Some(image_format_info::new(3, 1, vec![2, 1, 0])),
            ImageFormat::IMAGE_FORMAT_BGRA8888 => Some(image_format_info::new(4, 1, vec![2, 1, 0, 3])),
            ImageFormat::IMAGE_FORMAT_LINEAR_BGRA8888 => Some(image_format_info::new(4, 1, vec![2, 1, 0, 3])),
            ImageFormat::IMAGE_FORMAT_BGRX8888 => Some(image_format_info::new(4, 1, vec![2, 1, 0, 3])),
            ImageFormat::IMAGE_FORMAT_LINEAR_BGRX8888 => Some(image_format_info::new(4, 1, vec![2, 1, 0, 3])),
            _ => None,
        }
    }

    /// The registered pixel layout of the format; an error for formats without
    /// one.
    pub fn try_get_format_info(&self) -> (r: Result<image_format_info, VtfxError>)
        ensures
            r is Err <==> registered_layout(*self) is None,
            r is Err ==> r == Err::<image_format_info, VtfxError>(VtfxError::UnsupportedFormatError),
            r matches Ok(info) ==> registered_layout(*self) == Some(info@) && info@.wf(),
    {
        match self.get_format_info() {
            Some(info) => Ok(info),
            None => Err(VtfxError::UnsupportedFormatError),
        }
    }
}

} // verus!
