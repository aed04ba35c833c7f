use vstd::prelude::*;

use crate::args::Args;
use crate::block::{
    bc_compressed_size, bc_decoded, bc_decompress, block_bytes, compressed_bytes, correct_dxt_endianness,
    endian_fixed, BlockKind,
};
use crate::error::VtfxError;
use crate::image_format::{image_format_info, registered_layout, FormatLayout};
use crate::lzma::{decompress_lzma, has_lzma_magic, is_lzma_compressed, lzma_resource_decoded, VALVE_LZMA_HEADER_LEN};
use crate::pixels::{assemble_rgba, rgba_byte};
use crate::resource_entry_info::ResourceEntryInfo;
use crate::vtfx::{bc_ratio, has_vtfx_magic, VTFXHEADER, RESOURCE_START};

verus! {

/// A decoded image: `width` by `height` pixels of 4 bytes (R, G, B, A), row by
/// row.
pub struct DecodedImage {
    pub width: u16,
    pub height: u16,
    pub rgba: Vec<u8>,
}

/// The RGBA8 image of `w` by `h` pixels assembled from decoded data.
pub open spec fn rgba_image(
    data: Seq<u8>,
    layout: FormatLayout,
    w: int,
    h: int,
    offset: int,
    stride: int,
    args: Args,
) -> Seq<u8> {
    Seq::new(
        (w * h * 4) as nat,
        |i: int| rgba_byte(data, layout, offset, stride, args.export_alpha, args.experimental_onebitalpha, i / 4, i % 4),
    )
}

/// The image held by uncompressed pixel data. With more than one mip level the
/// largest level is the tail of the data.
pub open spec fn raw_image(data: Seq<u8>, layout: FormatLayout, header: VTFXHEADER, args: Args) -> Result<
    Seq<u8>,
    VtfxError,
> {
    let expected = header.width * header.height * layout.channels * layout.depth;
    if data.len() < expected {
        Err(VtfxError::SizeMismatchError)
    } else {
        let offset = if header.mip_count > 1 { data.len() - expected } else { 0 };
        Ok(rgba_image(data, layout, header.width as int, header.height as int, offset, layout.channels as int, args))
    }
}

/// Compressed bytes of the largest mip level, as the header's flags and
/// dimensions give them.
pub open spec fn header_dxt_size(header: VTFXHEADER, kind: BlockKind) -> int {
    header.width * header.height * header.spec_channels() / bc_ratio(header.spec_channels(), kind)
}

/// The image held by block-compressed data. Xbox 360 data (or any, when
/// asked) has its byte order fixed first; with more than one mip level the
/// largest level is the tail of the data.
pub open spec fn block_image(
    data: Seq<u8>,
    kind: BlockKind,
    layout: FormatLayout,
    header: VTFXHEADER,
    args: Args,
) -> Result<Seq<u8>, VtfxError> {
    let w = header.width as int;
    let h = header.height as int;
    let expected = compressed_bytes(kind, w, h);
    let fix = header.spec_is_xbox() || args.force_dxt_endian_fix;
    let offset = if header.mip_count > 1 { data.len() - header_dxt_size(header, kind) } else { 0 };
    if data.len() < expected {
        Err(VtfxError::SizeMismatchError)
    } else if fix && data.len() % block_bytes(kind) != 0 {
        Err(VtfxError::MalformedBlockError)
    } else if offset < 0 || data.len() - offset < expected || w * h * 4 > usize::MAX {
        Err(VtfxError::SizeMismatchError)
    } else {
        let fixed = if fix { endian_fixed(kind, data) } else { data };
        let decoded = bc_decoded(kind, fixed.subrange(offset, data.len() as int), w as nat, h as nat);
        Ok(rgba_image(decoded, layout, w, h, 0, 4, args))
    }
}

/// The image held by a resource's data once it is decompressed.
pub open spec fn image_of_data(data: Seq<u8>, layout: FormatLayout, header: VTFXHEADER, args: Args) -> Result<
    Seq<u8>,
    VtfxError,
> {
    match layout.bc_format {
        Some(kind) => block_image(data, kind, layout, header, args),
        None => raw_image(data, layout, header, args),
    }
}

/// `r` is the image `expected` describes, at the header's dimensions, or the
/// same error.
pub open spec fn yields(r: Result<DecodedImage, VtfxError>, expected: Result<Seq<u8>, VtfxError>, header: VTFXHEADER) -> bool {
    match expected {
        Ok(px) => r matches Ok(img) && img.rgba@ == px && img.width == header.width && img.height == header.height,
        Err(e) => r matches Err(e2) && e2 == e,
    }
}

/// Builds the image from uncompressed pixel data.
fn image_from_raw(data: Vec<u8>, info: &image_format_info, header: &VTFXHEADER, args: &Args) -> (r: Result<
    DecodedImage,
    VtfxError,
>)
    requires
        info@.wf(),
        info.bc_format is None,
    ensures
        yields(r, raw_image(data@, info@, *header, *args), *header),
{
    assert(header.width * header.height * info.channels * info.depth <= 65535 * 65535 * 4 * 4) by (nonlinear_arith)
        requires
            header.width <= 65535,
            header.height <= 65535,
            info.channels <= 4,
            info.depth <= 4,
    ;
    assert(header.width * header.height <= 65535 * 65535) by (nonlinear_arith)
        requires
            header.width <= 65535,
            header.height <= 65535,
    ;
    assert(header.width * header.height * info.channels <= 65535 * 65535 * 4) by (nonlinear_arith)
        requires
            header.width <= 65535,
            header.height <= 65535,
            info.channels <= 4,
    ;
    let expected: u64 = header.width as u64 * header.height as u64 * info.channels as u64 * info.depth as u64;
    if (data.len() as u64) < expected {
        return Err(VtfxError::SizeMismatchError);
    }
    let offset: usize = if header.mip_count > 1 {
        data.len() - expected as usize
    } else {
        0
    };
    let rgba = assemble_rgba(
        &data,
        info,
        header.width,
        header.height,
        offset,
        info.channels,
        args.export_alpha,
        args.experimental_onebitalpha,
    )?;
    assert(rgba@ =~= rgba_image(
        data@,
        info@,
        header.width as int,
        header.height as int,
        offset as int,
        info.channels as int,
        *args,
    ));
    Ok(DecodedImage { width: header.width, height: header.height, rgba })
}

/// Builds the image from block-compressed data.
fn image_from_blocks(data: Vec<u8>, kind: BlockKind, info: &image_format_info, header: &VTFXHEADER, args: &Args) -> (r:
    Result<DecodedImage, VtfxError>)
    requires
        info@.wf(),
        info.bc_format == Some(kind),
        registered_layout(header.image_format) == Some(info@),
    ensures
        yields(r, block_image(data@, kind, info@, *header, *args), *header),
{
    let ghost original = data@;
    let expected = bc_compressed_size(kind, header.width, header.height);
    if (data.len() as u64) < expected {
        return Err(VtfxError::SizeMismatchError);
    }
    let mut data = data;
    if header.is_xbox() || args.force_dxt_endian_fix {
        correct_dxt_endianness(&kind, &mut data)?;
    }
    let len = data.len();
    let mut offset: usize = 0;
    if header.mip_count > 1 {
        let dxt_size = match header.get_dxt_size() {
            Ok(v) => v,
            Err(e) => {
                return Err(e);
            },
        };
        proof {
            let c = header.spec_channels();
            assert(0 <= header.width * header.height * c <= 65535 * 65535 * 4) by (nonlinear_arith)
                requires
                    header.width <= 65535,
                    header.height <= 65535,
                    3 <= c <= 4,
            ;
            assert(bc_ratio(c, kind) >= 3) by {
                if kind == BlockKind::Bc1 {
                    assert(16 * c / 8 >= 3);
                } else {
                    if c == 3 {
                        assert(48int / 16 == 3);
                    } else {
                        assert(64int / 16 == 4);
                    }
                }
            }
            assert(0 <= header_dxt_size(*header, kind) <= 65535 * 65535 * 4);
            assert(dxt_size == header_dxt_size(*header, kind));
        }
        if dxt_size > len as u64 {
            return Err(VtfxError::SizeMismatchError);
        }
        offset = len - dxt_size as usize;
    }
    if ((len - offset) as u64) < expected {
        return Err(VtfxError::SizeMismatchError);
    }
    assert(header.width * header.height <= 65535 * 65535) by (nonlinear_arith)
        requires
            header.width <= 65535,
            header.height <= 65535,
    ;
    if header.width as u64 * header.height as u64 * 4 > usize::MAX as u64 {
        return Err(VtfxError::SizeMismatchError);
    }
    let decoded: Vec<u8> = if header.width == 0 {
        Vec::new()
    } else {
        let blocks = vstd::slice::slice_subrange(data.as_slice(), offset, len);
        bc_decompress(kind, blocks, header.width as usize, header.height as usize)
    };
    let ghost fixed = data@;
    let ghost expected_decoded = bc_decoded(
        kind,
        fixed.subrange(offset as int, len as int),
        header.width as nat,
        header.height as nat,
    );
    let rgba = assemble_rgba(
        &decoded,
        info,
        header.width,
        header.height,
        0,
        4,
        args.export_alpha,
        args.experimental_onebitalpha,
    )?;
    proof {
        let image = rgba_image(expected_decoded, info@, header.width as int, header.height as int, 0, 4, *args);
        if header.width == 0 {
            assert(header.width * header.height * 4 == 0) by (nonlinear_arith)
                requires
                    header.width == 0,
            ;
            assert(rgba@ =~= image);
        } else {
            assert(decoded@ == expected_decoded);
            assert(rgba@ =~= image);
        }
    }
    Ok(DecodedImage { width: header.width, height: header.height, rgba })
}

/// Builds the image from a resource's data once it is decompressed.
pub fn image_from_data(data: Vec<u8>, info: &image_format_info, header: &VTFXHEADER, args: &Args) -> (r: Result<
    DecodedImage,
    VtfxError,
>)
    requires
        info@.wf(),
        registered_layout(header.image_format) == Some(info@),
    ensures
        yields(r, image_of_data(data@, info@, *header, *args), *header),
{
    match info.bc_format {
        Some(kind) => image_from_blocks(data, kind, info, header, args),
        None => image_from_raw(data, info, header, args),
    }
}

/// The image held by the resource that `entry` points to: the data from the
/// entry's offset to the end of the file, decompressed when it begins with the
/// LZMA marker.
pub open spec fn resource_image(buffer: Seq<u8>, entry: ResourceEntryInfo, header: VTFXHEADER, args: Args) -> Result<
    Seq<u8>,
    VtfxError,
> {
    if entry.resData > buffer.len() {
        Err(VtfxError::TruncatedInputError)
    } else {
        match registered_layout(header.image_format) {
            None => Err(VtfxError::UnsupportedFormatError),
            Some(layout) => {
                let res = buffer.subrange(entry.resData as int, buffer.len() as int);
                if has_lzma_magic(res) {
                    if res.len() < VALVE_LZMA_HEADER_LEN {
                        Err(VtfxError::DecompressionError)
                    } else {
                        match lzma_resource_decoded(res) {
                            Some(d) => image_of_data(d, layout, header, args),
                            None => Err(VtfxError::DecompressionError),
                        }
                    }
                } else {
                    image_of_data(res, layout, header, args)
                }
            },
        }
    }
}

/// Decodes the image resource that `resource_entry_info` points to in the
/// file `buffer`, whose header is `vtfx`.
pub fn resource_to_image(buffer: &[u8], resource_entry_info: &ResourceEntryInfo, vtfx: &VTFXHEADER, args: &Args) -> (r:
    Result<DecodedImage, VtfxError>)
    ensures
        yields(r, resource_image(buffer@, *resource_entry_info, *vtfx, *args), *vtfx),
{
    let res_start = resource_entry_info.resData as usize;
    if res_start > buffer.len() {
        return Err(VtfxError::TruncatedInputError);
    }
    let resource = vstd::slice::slice_to_vec(vstd::slice::slice_subrange(buffer, res_start, buffer.len()));
    let info = match vtfx.image_format.try_get_format_info() {
        Ok(info) => info,
        Err(e) => {
            return Err(e);
        },
    };
    if is_lzma_compressed(resource.as_slice()) {
        let decompressed = match decompress_lzma(resource.as_slice()) {
            Ok(d) => d,
            Err(e) => {
                return Err(e);
            },
        };
        image_from_data(decompressed, &info, vtfx, args)
    } else {
        image_from_data(resource, &info, vtfx, args)
    }
}

/// One decoded image resource of a container.
pub struct ResourceImage {
    /// Position of the resource in the container's resource table.
    pub index: usize,
    /// How many image resources come before it in the table.
    pub image_number: usize,
    /// The image, or why it could not be decoded.
    pub image: Result<DecodedImage, VtfxError>,
}

/// A container's header, its resource table, and its image resources.
pub struct DecodedVtfx {
    pub header: VTFXHEADER,
    pub entries: Vec<ResourceEntryInfo>,
    /// One item per full-resolution image resource, in table order; none when
    /// resource export is turned off.
    pub images: Vec<ResourceImage>,
}

/// Positions, in table order, of the entries tagged as the full-resolution
/// image.
pub open spec fn legacy_image_indices(entries: Seq<ResourceEntryInfo>) -> Seq<int>
    decreases entries.len(),
{
    if entries.len() == 0 {
        seq![]
    } else {
        let before = legacy_image_indices(entries.drop_last());
        if entries.last().spec_is_legacy_image() {
            before.push(entries.len() - 1)
        } else {
            before
        }
    }
}

/// Decodes a whole container: its header, its resource table and each of its
/// full-resolution image resources. A resource that fails to decode does not
/// stop the others; a header or table that cannot be read fails the whole
/// container.
pub fn decode_vtfx(buffer: &[u8], args: &Args) -> (r: Result<DecodedVtfx, VtfxError>)
    ensures
        buffer@.len() < 4 ==> r matches Err(VtfxError::TruncatedInputError),
        buffer@.len() >= 4 && !has_vtfx_magic(buffer@) ==> r matches Err(VtfxError::FormatError),
        has_vtfx_magic(buffer@) && buffer@.len() < RESOURCE_START + 8 * table_len(buffer@) ==> r matches Err(
            VtfxError::TruncatedInputError,
        ),
        r is Ok <==> has_vtfx_magic(buffer@) && buffer@.len() >= RESOURCE_START + 8 * table_len(buffer@),
        r matches Ok(d) ==> {
            &&& d.header.read_from(buffer@)
            &&& d.entries@.len() == d.header.num_resources
            &&& forall|k: int|
                0 <= k < d.entries@.len() ==> (#[trigger] d.entries@[k]).read_from(buffer@, RESOURCE_START + 8 * k)
            &&& args.no_resource_export ==> d.images@.len() == 0
            &&& !args.no_resource_export ==> images_decoded(
                d.images@,
                d.entries@,
                d.entries@.len() as int,
                buffer@,
                d.header,
                *args,
            )
        },
{
    let header = VTFXHEADER::from(buffer)?;
    let entries = header.get_resource_entry_infos(buffer)?;
    let mut images: Vec<ResourceImage> = Vec::new();
    if !args.no_resource_export {
        let mut i: usize = 0;
        while i < entries.len()
            invariant
                i <= entries@.len(),
                images_decoded(images@, entries@, i as int, buffer@, header, *args),
            decreases entries@.len() - i,
        {
            proof {
                lemma_legacy_image_indices_step(entries@, i as int);
            }
            if entries[i].is_legacy_image() {
                let image = resource_to_image(buffer, &entries[i], &header, args);
                let image_number = images.len();
                let ghost before = images@;
                images.push(ResourceImage { index: i, image_number, image });
                assert forall|k: int| 0 <= k < images@.len() implies {
                    let index = legacy_image_indices(entries@.subrange(0, i + 1))[k];
                    &&& (#[trigger] images@[k]).index == index
                    &&& images@[k].image_number == k
                    &&& yields(images@[k].image, resource_image(buffer@, entries@[index], header, *args), header)
                } by {
                    if k < before.len() {
                        assert(images@[k] == before[k]);
                    }
                }
            }
            i = i + 1;
        }
    }
    Ok(DecodedVtfx { header, entries, images })
}

/// Entries in the resource table, as the header at the start of `s` counts
/// them (0 where the header is cut short).
pub open spec fn table_len(s: Seq<u8>) -> int {
    if s.len() >= RESOURCE_START { s[31] as int } else { 0 }
}

proof fn lemma_legacy_image_indices_step(entries: Seq<ResourceEntryInfo>, i: int)
    requires
        0 <= i < entries.len(),
    ensures
        legacy_image_indices(entries.subrange(0, i + 1)) == if entries[i].spec_is_legacy_image() {
            legacy_image_indices(entries.subrange(0, i)).push(i)
        } else {
            legacy_image_indices(entries.subrange(0, i))
        },
{
    assert(entries.subrange(0, i + 1).drop_last() =~= entries.subrange(0, i));
}

/// `images` holds, in order, the decoded image resources among the first `n`
/// of `entries`.
pub open spec fn images_decoded(
    images: Seq<ResourceImage>,
    entries: Seq<ResourceEntryInfo>,
    n: int,
    buffer: Seq<u8>,
    header: VTFXHEADER,
    args: Args,
) -> bool {
    &&& images.len() == legacy_image_indices(entries.subrange(0, n)).len()
    &&& forall|k: int|
        0 <= k < images.len() ==> {
            let index = legacy_image_indices(entries.subrange(0, n))[k];
            &&& (#[trigger] images[k]).index == index
            &&& images[k].image_number == k
            &&& yields(images[k].image, resource_image(buffer, entries[index], header, args), header)
        }
}

} // verus!
