use vtfx_reader::block::{correct_dxt_endianness, BlockKind};
use vtfx_reader::error::VtfxError;

#[test]
fn small_blocks_have_every_word_swapped() {
    let mut data: Vec<u8> = (1..=16).collect();
    assert_eq!(correct_dxt_endianness(&BlockKind::Bc1, &mut data), Ok(()));
    assert_eq!(data, vec![2, 1, 4, 3, 6, 5, 8, 7, 10, 9, 12, 11, 14, 13, 16, 15]);
}

#[test]
fn large_blocks_keep_their_alpha_half() {
    let mut data: Vec<u8> = (0..32).collect();
    assert_eq!(correct_dxt_endianness(&BlockKind::Bc3, &mut data), Ok(()));
    let expected: Vec<u8> = vec![
        0, 1, 2, 3, 4, 5, 6, 7, 9, 8, 11, 10, 13, 12, 15, 14, 16, 17, 18, 19, 20, 21, 22, 23, 25, 24, 27, 26, 29,
        28, 31, 30,
    ];
    assert_eq!(data, expected);
}

#[test]
fn fixing_twice_restores_the_bytes() {
    let original: Vec<u8> = vec![0xde, 0xad, 0xbe, 0xef, 0x01, 0x23, 0x45, 0x67];
    let mut data = original.clone();
    correct_dxt_endianness(&BlockKind::Bc1, &mut data).unwrap();
    assert_ne!(data, original);
    correct_dxt_endianness(&BlockKind::Bc1, &mut data).unwrap();
    assert_eq!(data, original);

    let original: Vec<u8> = (0..48).map(|i: u8| i.wrapping_mul(37)).collect();
    let mut data = original.clone();
    correct_dxt_endianness(&BlockKind::Bc3, &mut data).unwrap();
    assert_ne!(data, original);
    correct_dxt_endianness(&BlockKind::Bc3, &mut data).unwrap();
    assert_eq!(data, original);
}

#[test]
fn partial_blocks_are_rejected() {
    let mut data: Vec<u8> = vec![1, 2, 3, 4, 5, 6, 7];
    assert_eq!(correct_dxt_endianness(&BlockKind::Bc1, &mut data), Err(VtfxError::MalformedBlockError));
    assert_eq!(data, vec![1, 2, 3, 4, 5, 6, 7]);

    let mut data: Vec<u8> = (0..24).collect();
    assert_eq!(correct_dxt_endianness(&BlockKind::Bc3, &mut data), Err(VtfxError::MalformedBlockError));
    assert_eq!(data, (0..24).collect::<Vec<u8>>());
}

#[test]
fn empty_data_is_whole_blocks() {
    let mut data: Vec<u8> = Vec::new();
    assert_eq!(correct_dxt_endianness(&BlockKind::Bc3, &mut data), Ok(()));
    assert!(data.is_empty());
}
