use vtfx_reader::error::VtfxError;
use vtfx_reader::image_format::ImageFormat;
use vtfx_reader::vtfx::{has_vtfx_extension, VTFXHEADER};

fn put_u16(b: &mut Vec<u8>, at: usize, v: u16) {
    b[at..at + 2].copy_from_slice(&v.to_be_bytes());
}

fn put_u32(b: &mut Vec<u8>, at: usize, v: u32) {
    b[at..at + 4].copy_from_slice(&v.to_be_bytes());
}

/// A header of `len` bytes (at least 60) with the given fields.
fn header_bytes(len: usize, version: [u32; 2], flags: u32, w: u16, h: u16, format: i32, resources: u8) -> Vec<u8> {
    let mut b = vec![0u8; len];
    b[0..4].copy_from_slice(b"VTFX");
    put_u32(&mut b, 4, version[0]);
    put_u32(&mut b, 8, version[1]);
    put_u32(&mut b, 12, 60);
    put_u32(&mut b, 16, flags);
    put_u16(&mut b, 20, w);
    put_u16(&mut b, 22, h);
    put_u16(&mut b, 24, 1);
    put_u16(&mut b, 26, 1);
    put_u16(&mut b, 28, 0x1234);
    b[30] = 2;
    b[31] = resources;
    put_u32(&mut b, 32, 0x3f80_0000);
    put_u32(&mut b, 44, 0x4000_0000);
    put_u32(&mut b, 48, format as u32);
    b[52..56].copy_from_slice(&[9, 8, 7, 6]);
    put_u32(&mut b, 56, 0xabcd);
    b
}

#[test]
fn synthetic_xbox_header_parses() {
    let mut b = header_bytes(68, [0x0360, 8], 0, 4, 4, 13, 1);
    b[60..64].copy_from_slice(&[0x30, 0, 0, 0]);
    put_u32(&mut b, 64, 68);
    let h = VTFXHEADER::from(&b).unwrap();
    assert_eq!(h.width, 4);
    assert_eq!(h.height, 4);
    assert_eq!(h.depth, 1);
    assert!(h.is_xbox());
    assert_eq!(h.image_format, ImageFormat::IMAGE_FORMAT_DXT1);
    let info = h.image_format.get_format_info().unwrap();
    assert_eq!(info.channels, 3);
    assert_eq!(h.num_resources, 1);
    assert_eq!(h.mip_count, 3);
}

#[test]
fn every_header_field_is_read_big_endian() {
    let b = header_bytes(60, [0x0360, 7], 0x2000 | 0x0100, 300, 2, 0, 0);
    let h = VTFXHEADER::from(&b).unwrap();
    assert_eq!(h.version, [0x0360, 7]);
    assert!(!h.is_xbox());
    assert_eq!(h.header_size, 60);
    assert_eq!(h.flags, 0x2100);
    assert_eq!(h.width, 300);
    assert_eq!(h.height, 2);
    assert_eq!(h.num_frames, 1);
    assert_eq!(h.preload_data_size, 0x1234);
    assert_eq!(h.mip_skip_count, 2);
    assert_eq!(h.reflectivity_bits, [0x3f80_0000, 0, 0]);
    assert_eq!(h.bump_scale_bits, 0x4000_0000);
    assert_eq!(h.image_format, ImageFormat::IMAGE_FORMAT_RGBA8888);
    assert_eq!(h.low_res_image_sample, [9, 8, 7, 6]);
    assert_eq!(h.compressed_size, 0xabcd);
    // the no-mips flag wins over the dimensions
    assert_eq!(h.mip_count, 1);
    assert!(h.has_alpha());
    assert!(h.no_mips());
    assert!(!h.all_mips());
    assert!(!h.has_onebit_alpha());
    assert!(!h.hint_dx5());
    assert_eq!(h.get_channels(), 4);
}

#[test]
fn unknown_format_numbers_read_as_unknown() {
    let b = header_bytes(60, [7, 5], 0, 1, 1, 9999, 0);
    assert_eq!(VTFXHEADER::from(&b).unwrap().image_format, ImageFormat::IMAGE_FORMAT_UNKNOWN);
    let b = header_bytes(60, [7, 5], 0, 1, 1, -7, 0);
    assert_eq!(VTFXHEADER::from(&b).unwrap().image_format, ImageFormat::IMAGE_FORMAT_UNKNOWN);
    assert_eq!(ImageFormat::from_i32(15), ImageFormat::IMAGE_FORMAT_DXT5);
    assert_eq!(ImageFormat::from_i32(-1), ImageFormat::IMAGE_FORMAT_UNKNOWN);
    assert_eq!(ImageFormat::IMAGE_FORMAT_LINEAR_BGRX8888.id(), 42);
    assert_eq!(ImageFormat::default(), ImageFormat::IMAGE_FORMAT_UNKNOWN);
}

#[test]
fn wrong_magic_is_a_format_error() {
    let mut b = header_bytes(60, [0x0360, 8], 0, 4, 4, 13, 0);
    b[3] = b'F';
    assert_eq!(VTFXHEADER::from(&b).err(), Some(VtfxError::FormatError));
}

#[test]
fn short_buffers_are_truncated_input() {
    assert_eq!(VTFXHEADER::from(b"VT").err(), Some(VtfxError::TruncatedInputError));
    let b = header_bytes(60, [0x0360, 8], 0, 4, 4, 13, 0);
    assert_eq!(VTFXHEADER::from(&b[..59]).err(), Some(VtfxError::TruncatedInputError));
    assert_eq!(VTFXHEADER::from(b"ABCD").err(), Some(VtfxError::FormatError));
}

#[test]
fn resource_table_entries_are_eight_bytes_apart() {
    let mut b = header_bytes(60 + 24, [0x0360, 8], 0, 4, 4, 13, 3);
    b[60..68].copy_from_slice(&[0x30, 0, 0, 0xff, 0, 0, 0x01, 0x00]);
    b[68..76].copy_from_slice(&[0x01, 0x02, 0x03, 0x04, 0x12, 0x34, 0x56, 0x78]);
    b[76..84].copy_from_slice(&[0x30, 0, 0, 0, 0, 0, 0, 84]);
    let h = VTFXHEADER::from(&b).unwrap();
    let entries = h.get_resource_entry_infos(&b).unwrap();
    assert_eq!(entries.len(), 3);
    // the pad byte reads as zero
    assert_eq!(entries[0].chTypeBytes, [0x30, 0, 0, 0]);
    assert_eq!(entries[0].resData, 256);
    assert!(entries[0].is_legacy_image());
    assert_eq!(entries[1].chTypeBytes, [1, 2, 3, 0]);
    assert_eq!(entries[1].resData, 0x1234_5678);
    assert!(!entries[1].is_legacy_image());
    assert_eq!(entries[2].resData, 84);
}

#[test]
fn truncated_resource_table_is_rejected() {
    let b = header_bytes(60 + 15, [0x0360, 8], 0, 4, 4, 13, 2);
    let h = VTFXHEADER::from(&b).unwrap();
    assert_eq!(h.get_resource_entry_infos(&b).err(), Some(VtfxError::TruncatedInputError));
    let none = header_bytes(60, [0x0360, 8], 0, 4, 4, 13, 0);
    let h = VTFXHEADER::from(&none).unwrap();
    assert_eq!(h.get_resource_entry_infos(&none).unwrap().len(), 0);
}

#[test]
fn sizes_of_the_largest_mip() {
    let b = header_bytes(60, [0x0360, 8], 0, 8, 8, 13, 0);
    let h = VTFXHEADER::from(&b).unwrap();
    assert_eq!(h.get_total_size(), 8 * 8 * 3);
    // DXT1 packs 48 decoded bytes into 8
    assert_eq!(h.get_dxt_size(), Ok(32));
    // 4x4, 2x2 and 1x1 levels of 3 channels
    assert_eq!(h.get_mip0_start(), 48 + 12 + 3);
    assert_eq!(h.get_mip0_dxt_start(), Ok(10));

    let b = header_bytes(60, [0x0360, 8], 0x2000, 8, 8, 15, 0);
    let h = VTFXHEADER::from(&b).unwrap();
    assert_eq!(h.get_dxt_size(), Ok(64));

    let b = header_bytes(60, [0x0360, 8], 0, 8, 8, 0, 0);
    let h = VTFXHEADER::from(&b).unwrap();
    assert_eq!(h.get_dxt_size(), Err(VtfxError::NotBlockCompressedError));
    let b = header_bytes(60, [0x0360, 8], 0, 8, 8, 5, 0);
    let h = VTFXHEADER::from(&b).unwrap();
    assert_eq!(h.get_dxt_size(), Err(VtfxError::UnsupportedFormatError));
}

#[test]
fn vtf_extensions_in_any_case() {
    assert!(has_vtfx_extension(b"vtf"));
    assert!(has_vtfx_extension(b"VTFX"));
    assert!(has_vtfx_extension(b"VtF"));
    assert!(!has_vtfx_extension(b"png"));
    assert!(!has_vtfx_extension(b"vtfxx"));
    assert!(!has_vtfx_extension(b""));
}
