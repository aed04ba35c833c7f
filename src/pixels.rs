use vstd::prelude::*;

use crate::bytes::{be_u16, be_u32, read_be_u16, read_be_u32};
use crate::error::VtfxError;
use crate::image_format::{image_format_info, FormatLayout};

verus! {

/// Whether channels of `depth` bytes can be brought down to one byte.
pub open spec fn supported_depth(depth: int) -> bool {
    depth == 1 || depth == 2 || depth == 4
}

/// The channel of `depth` bytes at `i` of `s`, as one byte: a byte as it is, a
/// big-endian 16-bit value halved, or a big-endian 32-bit value quartered,
/// truncated to 8 bits.
pub open spec fn channel_as_u8(s: Seq<u8>, i: int, depth: int) -> u8 {
    if depth == 1 {
        s[i]
    } else if depth == 2 {
        ((be_u16(s, i) / 2) % 256) as u8
    } else {
        ((be_u32(s, i) / 4) % 256) as u8
    }
}

/// Reads the channel of `depth` bytes at `index` as one byte. Fails on a
/// depth other than 1, 2 or 4, and on a read past the end of the buffer.
pub fn get_pixel_as_u8(in_buffer: &Vec<u8>, index: usize, depth: &u16) -> (r: Result<u8, VtfxError>)
    ensures
        !supported_depth(*depth as int) ==> r == Err::<u8, VtfxError>(VtfxError::UnsupportedDepthError),
        supported_depth(*depth as int) && index + *depth > in_buffer@.len() ==> r == Err::<u8, VtfxError>(
            VtfxError::TruncatedInputError,
        ),
        supported_depth(*depth as int) && index + *depth <= in_buffer@.len() ==> r == Ok::<u8, VtfxError>(
            channel_as_u8(in_buffer@, index as int, *depth as int),
        ),
{
    if !(*depth == 1 || *depth == 2 || *depth == 4) {
        return Err(VtfxError::UnsupportedDepthError);
    }
    if index > in_buffer.len() || in_buffer.len() - index < *depth as usize {
        return Err(VtfxError::TruncatedInputError);
    }
    if *depth == 1 {
        Ok(in_buffer[index])
    } else if *depth == 2 {
        let colour = read_be_u16(in_buffer.as_slice(), index);
        Ok(((colour / 2) % 256) as u8)
    } else {
        let colour = read_be_u32(in_buffer.as_slice(), index);
        Ok(((colour / 4) % 256) as u8)
    }
}

/// Where channel `channel` of pixel `p` starts in decoded data whose pixels
/// are `stride` channels of `depth` bytes each, from `offset` on.
pub open spec fn source_index(offset: int, p: int, depth: int, stride: int, channel: int) -> int {
    offset + p * depth * stride + channel * depth
}

/// Output channel `c` (R, G, B, A) of pixel `p`, read through the layout's
/// channel order; 255 where the layout has no such channel or the read would
/// pass the end of the data.
pub open spec fn decoded_channel(data: Seq<u8>, layout: FormatLayout, offset: int, stride: int, p: int, c: int) -> u8 {
    if c < layout.channels {
        let i = source_index(offset, p, layout.depth as int, stride, layout.channel_order[c] as int);
        if i + layout.depth <= data.len() {
            channel_as_u8(data, i, layout.depth as int)
        } else {
            255
        }
    } else {
        255
    }
}

/// Byte `c` of pixel `p` of the assembled image: the decoded channel, but an
/// alpha that is opaque when alpha is not exported, and that is 0 (when the
/// decoded alpha is above 1) or 255 in one-bit alpha mode.
pub open spec fn rgba_byte(
    data: Seq<u8>,
    layout: FormatLayout,
    offset: int,
    stride: int,
    export_alpha: bool,
    onebit_alpha: bool,
    p: int,
    c: int,
) -> u8 {
    if c == 3 && !export_alpha {
        255
    } else if c == 3 && onebit_alpha {
        if decoded_channel(data, layout, offset, stride, p, 3) > 1 { 0 } else { 255 }
    } else {
        decoded_channel(data, layout, offset, stride, p, c)
    }
}

fn decode_channel(data: &Vec<u8>, format: &image_format_info, offset: usize, stride: u16, p: u64, c: u16) -> (r: u8)
    requires
        supported_depth(format.depth as int),
        format.channels <= 4,
        format.channel_order@.len() >= format.channels,
        c < 4,
        p < 65536 * 65536,
    ensures
        r == decoded_channel(data@, format@, offset as int, stride as int, p as int, c as int),
{
    if c >= format.channels {
        return 255;
    }
    let depth = format.depth;
    let order = format.channel_order[c as usize];
    assert(p * depth * stride <= 65536 * 65536 * 65535 * 65535) by (nonlinear_arith)
        requires
            p <= 65536 * 65536,
            depth <= 65535,
            stride <= 65535,
    ;
    assert(order * depth <= 65535 * 65535) by (nonlinear_arith)
        requires
            order <= 65535,
            depth <= 65535,
    ;
    assert(p as u128 * depth as u128 <= 65536 * 65536 * 65535) by (nonlinear_arith)
        requires
            p <= 65536 * 65536,
            depth <= 65535,
    ;
    let index: u128 = offset as u128 + p as u128 * depth as u128 * stride as u128 + order as u128 * depth as u128;
    if index + depth as u128 <= data.len() as u128 {
        match get_pixel_as_u8(data, index as usize, &depth) {
            Ok(v) => v,
            Err(_) => 255,
        }
    } else {
        255
    }
}

/// Assembles a `width` by `height` RGBA8 image, row by row, from decoded
/// data whose pixels are `layout_channels` channels of the format's depth,
/// starting `mip_offset` bytes in. Channels that would be read past the end of
/// the data keep the value 255. Fails when the format's channels are neither
/// 1, 2 nor 4 bytes deep.
pub fn assemble_rgba(
    data: &Vec<u8>,
    format: &image_format_info,
    width: u16,
    height: u16,
    mip_offset: usize,
    layout_channels: u16,
    export_alpha: bool,
    onebit_alpha: bool,
) -> (r: Result<Vec<u8>, VtfxError>)
    requires
        format.channels <= 4,
        format.channel_order@.len() >= format.channels,
    ensures
        r is Err <==> !supported_depth(format.depth as int),
        r is Err ==> r == Err::<Vec<u8>, VtfxError>(VtfxError::UnsupportedDepthError),
        r matches Ok(out) ==> out@.len() == width * height * 4 && forall|i: int|
            0 <= i < out@.len() ==> #[trigger] out@[i] == rgba_byte(
                data@,
                format@,
                mip_offset as int,
                layout_channels as int,
                export_alpha,
                onebit_alpha,
                i / 4,
                i % 4,
            ),
{
    if !(format.depth == 1 || format.depth == 2 || format.depth == 4) {
        return Err(VtfxError::UnsupportedDepthError);
    }
    assert(width * height <= 65535 * 65535) by (nonlinear_arith)
        requires
            width <= 65535,
            height <= 65535,
    ;
    let pixels: u64 = width as u64 * height as u64;
    let mut out: Vec<u8> = Vec::new();
    let mut p: u64 = 0;
    while p < pixels
        invariant
            supported_depth(format.depth as int),
            format.channels <= 4,
            format.channel_order@.len() >= format.channels,
            pixels == width * height,
            pixels <= 65535 * 65535,
            p <= pixels,
            out@.len() == 4 * p,
            forall|i: int|
                0 <= i < out@.len() ==> #[trigger] out@[i] == rgba_byte(
                    data@,
                    format@,
                    mip_offset as int,
                    layout_channels as int,
                    export_alpha,
                    onebit_alpha,
                    i / 4,
                    i % 4,
                ),
        decreases pixels - p,
    {
        let red = decode_channel(data, format, mip_offset, layout_channels, p, 0);
        let green = decode_channel(data, format, mip_offset, layout_channels, p, 1);
        let blue = decode_channel(data, format, mip_offset, layout_channels, p, 2);
        let decoded_alpha = decode_channel(data, format, mip_offset, layout_channels, p, 3);
        let alpha: u8 = if !export_alpha {
            255
        } else if onebit_alpha {
            if decoded_alpha > 1 { 0 } else { 255 }
        } else {
            decoded_alpha
        };
        let ghost before = out@;
        out.push(red);
        out.push(green);
        out.push(blue);
        out.push(alpha);
        assert forall|i: int| 0 <= i < out@.len() implies #[trigger] out@[i] == rgba_byte(
            data@,
            format@,
            mip_offset as int,
            layout_channels as int,
            export_alpha,
            onebit_alpha,
            i / 4,
            i % 4,
        ) by {
            if i >= 4 * p {
                assert(i / 4 == p && i % 4 == i - 4 * p);
            } else {
                assert(out@[i] == before[i]);
            }
        }
        p = p + 1;
    }
    Ok(out)
}

/// A channel whose read would start at or pass the end of the data keeps its
/// default value 255.
pub proof fn lemma_out_of_range_channel_is_default(
    data: Seq<u8>,
    layout: FormatLayout,
    offset: int,
    stride: int,
    p: int,
    c: int,
)
    requires
        0 <= c < layout.channels,
        source_index(offset, p, layout.depth as int, stride, layout.channel_order[c] as int) >= data.len(),
        layout.depth >= 1,
    ensures
        decoded_channel(data, layout, offset, stride, p, c) == 255,
{
}

} // verus!
