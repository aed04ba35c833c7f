use vtfx_reader::error::VtfxError;
use vtfx_reader::image_format::{image_format_info, ImageFormat};
use vtfx_reader::pixels::{assemble_rgba, get_pixel_as_u8};

fn bgr() -> image_format_info {
    image_format_info { channels: 3, depth: 1, channel_order: vec![2, 1, 0], bc_format: None }
}

#[test]
fn bgr_pixels_are_swapped_into_rgb() {
    let data: Vec<u8> = vec![0x10, 0x20, 0x30, 0x40, 0x50, 0x60];
    let out = assemble_rgba(&data, &bgr(), 2, 1, 0, 3, false, false).unwrap();
    assert_eq!(out, vec![0x30, 0x20, 0x10, 255, 0x60, 0x50, 0x40, 255]);
    let registered = ImageFormat::IMAGE_FORMAT_BGR888.get_format_info().unwrap();
    assert_eq!(assemble_rgba(&data, &registered, 2, 1, 0, 3, false, false).unwrap(), out);
}

#[test]
fn reads_past_the_end_keep_the_default() {
    let data: Vec<u8> = vec![0x10, 0x20, 0x30, 0x40];
    let out = assemble_rgba(&data, &bgr(), 2, 1, 0, 3, false, false).unwrap();
    // the second pixel's blue (index 3) is there; its green and red are not
    assert_eq!(out, vec![0x30, 0x20, 0x10, 255, 255, 255, 0x40, 255]);
    let out = assemble_rgba(&data, &bgr(), 1, 1, 100, 3, false, false).unwrap();
    assert_eq!(out, vec![255, 255, 255, 255]);
}

#[test]
fn alpha_is_kept_only_when_exported() {
    let info = ImageFormat::IMAGE_FORMAT_RGBA8888.get_format_info().unwrap();
    let data: Vec<u8> = vec![1, 2, 3, 0x80, 5, 6, 7, 1];
    assert_eq!(
        assemble_rgba(&data, &info, 2, 1, 0, 4, false, false).unwrap(),
        vec![1, 2, 3, 255, 5, 6, 7, 255]
    );
    assert_eq!(
        assemble_rgba(&data, &info, 2, 1, 0, 4, true, false).unwrap(),
        vec![1, 2, 3, 0x80, 5, 6, 7, 1]
    );
    assert_eq!(
        assemble_rgba(&data, &info, 2, 1, 0, 4, true, true).unwrap(),
        vec![1, 2, 3, 0, 5, 6, 7, 255]
    );
}

#[test]
fn rows_and_mip_offsets_select_the_source() {
    let info = ImageFormat::IMAGE_FORMAT_ABGR8888.get_format_info().unwrap();
    let mut data: Vec<u8> = vec![0xee; 3];
    data.extend_from_slice(&[4, 3, 2, 1, 8, 7, 6, 5]);
    let out = assemble_rgba(&data, &info, 1, 2, 3, 4, true, false).unwrap();
    assert_eq!(out, vec![1, 2, 3, 4, 5, 6, 7, 8]);
}

#[test]
fn wide_channels_are_narrowed() {
    let info = ImageFormat::IMAGE_FORMAT_RGBA16161616.get_format_info().unwrap();
    let data: Vec<u8> = vec![0x01, 0x00, 0x00, 0x80, 0xff, 0xff, 0x00, 0x02];
    let out = assemble_rgba(&data, &info, 1, 1, 0, 4, true, false).unwrap();
    // 0x0100 / 2 = 0x80; 0x0080 / 2 = 0x40; 0xffff / 2 = 0x7fff, truncated
    assert_eq!(out, vec![0x80, 0x40, 0xff, 0x01]);
}

#[test]
fn pixel_reads_by_depth() {
    let data: Vec<u8> = vec![0x12, 0x34, 0x56, 0x78, 0x9a];
    assert_eq!(get_pixel_as_u8(&data, 4, &1), Ok(0x9a));
    assert_eq!(get_pixel_as_u8(&data, 0, &2), Ok(0x1a));
    assert_eq!(get_pixel_as_u8(&data, 1, &4), Ok(0x26));
    assert_eq!(get_pixel_as_u8(&data, 0, &3), Err(VtfxError::UnsupportedDepthError));
    assert_eq!(get_pixel_as_u8(&data, 4, &2), Err(VtfxError::TruncatedInputError));
    assert_eq!(get_pixel_as_u8(&data, 9, &1), Err(VtfxError::TruncatedInputError));
}

#[test]
fn unsupported_depth_fails_assembly() {
    let info = image_format_info { channels: 3, depth: 3, channel_order: vec![0, 1, 2], bc_format: None };
    let data: Vec<u8> = vec![0; 9];
    assert_eq!(assemble_rgba(&data, &info, 1, 1, 0, 3, false, false), Err(VtfxError::UnsupportedDepthError));
}

#[test]
fn empty_image_has_no_bytes() {
    let data: Vec<u8> = vec![1, 2, 3];
    assert_eq!(assemble_rgba(&data, &bgr(), 0, 5, 0, 3, false, false), Ok(vec![]));
}
