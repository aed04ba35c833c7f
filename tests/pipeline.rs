use vtfx_reader::args::Args;
use vtfx_reader::error::VtfxError;
use vtfx_reader::pipeline::{decode_vtfx, resource_to_image, DecodedVtfx};

fn args(export_alpha: bool, force_fix: bool, no_export: bool) -> Args {
    Args {
        input: String::from("in.vtf"),
        output: None,
        export_alpha,
        force_dxt_endian_fix: force_fix,
        no_resource_export: no_export,
        open: false,
        experimental_onebitalpha: false,
    }
}

/// A container with one resource table entry per `(tag, data)` pair, each
/// resource's data following the table in order.
fn container(version: [u32; 2], flags: u32, w: u16, h: u16, format: i32, resources: &[([u8; 3], Vec<u8>)]) -> Vec<u8> {
    let mut b = vec![0u8; 60];
    b[0..4].copy_from_slice(b"VTFX");
    b[4..8].copy_from_slice(&version[0].to_be_bytes());
    b[8..12].copy_from_slice(&version[1].to_be_bytes());
    b[16..20].copy_from_slice(&flags.to_be_bytes());
    b[20..22].copy_from_slice(&w.to_be_bytes());
    b[22..24].copy_from_slice(&h.to_be_bytes());
    b[24..26].copy_from_slice(&1u16.to_be_bytes());
    b[31] = resources.len() as u8;
    b[48..52].copy_from_slice(&format.to_be_bytes());
    let mut offset = 60 + 8 * resources.len();
    for (tag, data) in resources {
        b.extend_from_slice(&[tag[0], tag[1], tag[2], 0]);
        b.extend_from_slice(&(offset as u32).to_be_bytes());
        offset += data.len();
    }
    for (_, data) in resources {
        b.extend_from_slice(data);
    }
    b
}

const IMAGE: [u8; 3] = [0x30, 0, 0];
const XBOX: [u32; 2] = [0x0360, 8];
const PS3: [u32; 2] = [0x0360, 4];
const NO_MIPS: u32 = 0x100;

fn only_image(d: &DecodedVtfx) -> Vec<u8> {
    assert_eq!(d.images.len(), 1);
    d.images[0].image.as_ref().unwrap().rgba.clone()
}

#[test]
fn raw_image_uses_its_largest_mip() {
    // a 1x1 mip, then the 2x2 one
    let mut data: Vec<u8> = vec![9, 9, 9, 9];
    data.extend_from_slice(&[1, 2, 3, 4, 5, 6, 7, 8, 9, 10, 11, 12, 13, 14, 15, 16]);
    let b = container(XBOX, 0, 2, 2, 0, &[([1, 0, 0], vec![]), (IMAGE, data)]);
    let d = decode_vtfx(&b, &args(true, false, false)).unwrap();
    assert_eq!(d.header.mip_count, 2);
    assert_eq!(d.entries.len(), 2);
    assert_eq!(d.images[0].index, 1);
    assert_eq!(d.images[0].image_number, 0);
    let img = d.images[0].image.as_ref().unwrap();
    assert_eq!((img.width, img.height), (2, 2));
    assert_eq!(img.rgba, (1..=16).collect::<Vec<u8>>());
}

#[test]
fn xbox_block_data_is_byte_swapped_before_decoding() {
    // a DXT1 block whose first endpoint is pure red, stored big-endian
    let block: Vec<u8> = vec![0xf8, 0x00, 0, 0, 0, 0, 0, 0];
    let b = container(XBOX, NO_MIPS, 4, 4, 13, &[(IMAGE, block.clone())]);
    let d = decode_vtfx(&b, &args(false, false, false)).unwrap();
    let rgba = only_image(&d);
    assert_eq!(rgba.len(), 64);
    assert!(rgba.chunks(4).all(|p| p == [255, 0, 0, 255]));

    // the same bytes on the other console are read as they stand
    let b = container(PS3, NO_MIPS, 4, 4, 13, &[(IMAGE, block.clone())]);
    let d = decode_vtfx(&b, &args(false, false, false)).unwrap();
    assert!(only_image(&d).chunks(4).all(|p| p == [0, 28, 198, 255]));

    // unless the fix is forced
    let d = decode_vtfx(&b, &args(false, true, false)).unwrap();
    assert!(only_image(&d).chunks(4).all(|p| p == [255, 0, 0, 255]));
}

#[test]
fn lzma_resources_are_decompressed_first() {
    let plain: Vec<u8> = vec![10, 20, 30, 40, 50, 60, 70, 80, 90, 100, 110, 120];
    let options = lzma_rs::compress::Options {
        unpacked_size: lzma_rs::compress::UnpackedSize::WriteToHeader(Some(plain.len() as u64)),
    };
    let mut standard: Vec<u8> = Vec::new();
    lzma_rs::lzma_compress_with_options(&mut &plain[..], &mut standard, &options).unwrap();
    let mut res: Vec<u8> = b"LZMA".to_vec();
    res.extend_from_slice(&(plain.len() as u32).to_le_bytes());
    res.extend_from_slice(&((standard.len() - 13) as u32).to_le_bytes());
    res.extend_from_slice(&standard[0..5]);
    res.extend_from_slice(&standard[13..]);
    // RGB888, 2x2
    let b = container(PS3, NO_MIPS, 2, 2, 2, &[(IMAGE, res)]);
    let d = decode_vtfx(&b, &args(false, false, false)).unwrap();
    assert_eq!(
        only_image(&d),
        vec![10, 20, 30, 255, 40, 50, 60, 255, 70, 80, 90, 255, 100, 110, 120, 255]
    );
}

#[test]
fn failing_resources_do_not_stop_the_others() {
    let good: Vec<u8> = vec![1, 2, 3, 4];
    let b = container(PS3, NO_MIPS, 1, 1, 0, &[(IMAGE, good.clone()), (IMAGE, vec![])]);
    let mut b = b;
    // point the second entry past the end of the file
    b[72..76].copy_from_slice(&1000u32.to_be_bytes());
    let d = decode_vtfx(&b, &args(true, false, false)).unwrap();
    assert_eq!(d.images.len(), 2);
    assert_eq!(d.images[0].image.as_ref().unwrap().rgba, good);
    assert_eq!(d.images[1].image.as_ref().err(), Some(&VtfxError::TruncatedInputError));
    assert_eq!(d.images[1].index, 1);
    assert_eq!(d.images[1].image_number, 1);
}

#[test]
fn unregistered_formats_are_unsupported() {
    // IMAGE_FORMAT_I8
    let b = container(PS3, NO_MIPS, 1, 1, 5, &[(IMAGE, vec![7])]);
    let d = decode_vtfx(&b, &args(false, false, false)).unwrap();
    assert_eq!(d.images[0].image.as_ref().err(), Some(&VtfxError::UnsupportedFormatError));
}

#[test]
fn short_resources_are_size_mismatches() {
    let b = container(XBOX, NO_MIPS, 4, 4, 13, &[(IMAGE, vec![0; 4])]);
    let d = decode_vtfx(&b, &args(false, false, false)).unwrap();
    assert_eq!(d.images[0].image.as_ref().err(), Some(&VtfxError::SizeMismatchError));
    let b = container(PS3, NO_MIPS, 2, 2, 0, &[(IMAGE, vec![0; 15])]);
    let d = decode_vtfx(&b, &args(false, false, false)).unwrap();
    assert_eq!(d.images[0].image.as_ref().err(), Some(&VtfxError::SizeMismatchError));
}

#[test]
fn partial_blocks_are_malformed_on_xbox() {
    // DXT5 needs 16-byte blocks
    let b = container(XBOX, NO_MIPS, 4, 4, 15, &[(IMAGE, vec![0; 20])]);
    let d = decode_vtfx(&b, &args(false, false, false)).unwrap();
    assert_eq!(d.images[0].image.as_ref().err(), Some(&VtfxError::MalformedBlockError));
}

#[test]
fn skipping_export_decodes_no_resource() {
    let b = container(XBOX, NO_MIPS, 1, 1, 0, &[(IMAGE, vec![1, 2, 3, 4])]);
    let d = decode_vtfx(&b, &args(false, false, true)).unwrap();
    assert_eq!(d.entries.len(), 1);
    assert!(d.images.is_empty());
}

#[test]
fn broken_containers_fail_whole() {
    assert_eq!(decode_vtfx(b"VTF\0", &args(false, false, false)).err().map(|_| ()), Some(()));
    let mut b = container(XBOX, 0, 1, 1, 0, &[(IMAGE, vec![1, 2, 3, 4])]);
    b.truncate(64);
    assert!(matches!(decode_vtfx(&b, &args(false, false, false)), Err(VtfxError::TruncatedInputError)));
}

#[test]
fn single_resource_decodes_directly() {
    let b = container(PS3, NO_MIPS, 1, 1, 3, &[(IMAGE, vec![1, 2, 3])]);
    let d = decode_vtfx(&b, &args(false, false, false)).unwrap();
    let img = resource_to_image(&b, &d.entries[0], &d.header, &args(false, false, false)).unwrap();
    // BGR888
    assert_eq!(img.rgba, vec![3, 2, 1, 255]);
}
