use vstd::prelude::*;

use crate::error::VtfxError;

verus! {

/// The block-compression kinds whose data this library can decode.
#[derive(Debug, Clone, Copy, PartialEq, Eq, Structural)]
pub enum BlockKind {
    /// Three-channel colour blocks of 8 bytes (DXT1).
    Bc1,
    /// Four-channel blocks of 16 bytes: 8 of alpha, then 8 of colour (DXT5).
    Bc3,
}

/// Bytes in one compressed 4x4 block of the kind.
pub open spec fn block_bytes(kind: BlockKind) -> nat {
    match kind {
        BlockKind::Bc1 => 8,
        BlockKind::Bc3 => 16,
    }
}

/// Whether the byte at `i` belongs to a colour sub-block, whose 16-bit words
/// are stored with their bytes reversed on the console.
pub open spec fn in_colour_block(kind: BlockKind, i: int) -> bool {
    match kind {
        BlockKind::Bc1 => true,
        BlockKind::Bc3 => i % 16 >= 8,
    }
}

/// The other byte of the 16-bit word that holds the byte at `i`.
pub open spec fn word_partner(i: int) -> int {
    if i % 2 == 0 { i + 1 } else { i - 1 }
}

/// `s` with the bytes of every 16-bit word of its colour sub-blocks swapped.
pub open spec fn endian_fixed(kind: BlockKind, s: Seq<u8>) -> Seq<u8> {
    Seq::new(s.len(), |i: int| if in_colour_block(kind, i) { s[word_partner(i)] } else { s[i] })
}

/// Relies on texpresso::Format::block_size: 8 bytes for BC1, 16 for BC3.
#[verifier::external_body]
pub(crate) fn block_size(kind: BlockKind) -> (r: usize)
    ensures
        r == block_bytes(kind),
{
    match kind {
        BlockKind::Bc1 => texpresso::Format::Bc1.block_size(),
        BlockKind::Bc3 => texpresso::Format::Bc3.block_size(),
    }
}

/// Swaps the two bytes of each of the four 16-bit words of the 8-byte colour
/// block that starts at `start`: two colour endpoints, then the two halves of
/// the index bitmap.
fn fix_colour_block(data: &mut Vec<u8>, start: usize)
    requires
        start % 2 == 0,
        start + 8 <= old(data)@.len(),
    ensures
        final(data)@.len() == old(data)@.len(),
        forall|i: int|
            0 <= i < old(data)@.len() ==> #[trigger] final(data)@[i] == if start <= i < start + 8 {
                old(data)@[word_partner(i)]
            } else {
                old(data)@[i]
            },
{
    let n = data.len();
    let mut k: usize = 0;
    while k < 4
        invariant
            k <= 4,
            n == data@.len(),
            start % 2 == 0,
            start + 8 <= old(data)@.len(),
            data@.len() == old(data)@.len(),
            forall|i: int|
                0 <= i < old(data)@.len() ==> #[trigger] data@[i] == if start <= i < start + 2 * k {
                    old(data)@[word_partner(i)]
                } else {
                    old(data)@[i]
                },
        decreases 4 - k,
    {
        let index = start + 2 * k;
        let hi = data[index];
        let lo = data[index + 1];
        data.set(index, lo);
        data.set(index + 1, hi);
        k = k + 1;
    }
}

/// Reverses the console's byte order inside the colour sub-blocks of
/// block-compressed data, in place. Fails, leaving the data as it was, when its
/// length is not a whole number of blocks.
pub fn correct_dxt_endianness(format: &BlockKind, data: &mut Vec<u8>) -> (r: Result<(), VtfxError>)
    ensures
        r is Ok <==> old(data)@.len() % block_bytes(*format) == 0,
        r is Ok ==> final(data)@ == endian_fixed(*format, old(data)@),
        r is Err ==> r == Err::<(), VtfxError>(VtfxError::MalformedBlockError) && final(data)@ == old(data)@,
{
    let size = block_size(*format);
    if data.len() % size != 0 {
        return Err(VtfxError::MalformedBlockError);
    }
    let colour_start: usize = match format {
        BlockKind::Bc1 => 0,
        BlockKind::Bc3 => 8,
    };
    let ghost original = data@;
    let mut pos: usize = 0;
    while pos < data.len()
        invariant
            size == block_bytes(*format),
            colour_start + 8 == size,
            original.len() % (size as nat) == 0,
            pos % size == 0,
            pos % 8 == 0,
            pos <= original.len(),
            data@.len() == original.len(),
            forall|i: int|
                0 <= i < original.len() ==> #[trigger] data@[i] == if i < pos {
                    endian_fixed(*format, original)[i]
                } else {
                    original[i]
                },
        decreases original.len() - pos,
    {
        let ghost before = data@;
        fix_colour_block(data, pos + colour_start);
        proof {
            lemma_block_step(*format, original, before, data@, pos as int);
        }
        pos = pos + size;
    }
    assert(data@ =~= endian_fixed(*format, original));
    Ok(())
}

/// Fixing the colour sub-block of the block at `pos` extends the fixed prefix
/// by that block.
proof fn lemma_block_step(kind: BlockKind, original: Seq<u8>, before: Seq<u8>, after: Seq<u8>, pos: int)
    requires
        pos >= 0,
        pos % (block_bytes(kind) as int) == 0,
        pos % 8 == 0,
        pos + block_bytes(kind) <= original.len(),
        before.len() == original.len(),
        after.len() == original.len(),
        forall|i: int|
            0 <= i < original.len() ==> #[trigger] before[i] == if i < pos {
                endian_fixed(kind, original)[i]
            } else {
                original[i]
            },
        forall|i: int|
            0 <= i < original.len() ==> #[trigger] after[i] == if pos + block_bytes(kind) - 8 <= i < pos
                + block_bytes(kind) {
                before[word_partner(i)]
            } else {
                before[i]
            },
    ensures
        forall|i: int|
            0 <= i < original.len() ==> #[trigger] after[i] == if i < pos + block_bytes(kind) {
                endian_fixed(kind, original)[i]
            } else {
                original[i]
            },
{
    assert forall|i: int| 0 <= i < original.len() implies #[trigger] after[i] == if i < pos + block_bytes(kind) {
        endian_fixed(kind, original)[i]
    } else {
        original[i]
    } by {
        if pos <= i < pos + block_bytes(kind) {
            lemma_colour_byte_in_block(kind, pos, i);
            assert(before[i] == original[i]);
            if i >= pos + block_bytes(kind) - 8 {
                assert(before[word_partner(i)] == original[word_partner(i)]);
            }
        }
    }
}

/// Within the block that starts at `pos`, the colour sub-block is its last 8
/// bytes.
proof fn lemma_colour_byte_in_block(kind: BlockKind, pos: int, i: int)
    requires
        pos >= 0,
        pos % (block_bytes(kind) as int) == 0,
        pos <= i < pos + block_bytes(kind),
    ensures
        in_colour_block(kind, i) <==> i >= pos + block_bytes(kind) - 8,
{
    if kind == BlockKind::Bc3 {
        assert(i % 16 == i - pos) by (nonlinear_arith)
            requires
                pos % 16 == 0,
                pos <= i < pos + 16,
                pos >= 0,
        ;
    }
}

/// Fixing the byte order of whole blocks twice gives back the original bytes.
pub proof fn lemma_endian_fix_involution(kind: BlockKind, s: Seq<u8>)
    requires
        s.len() % block_bytes(kind) == 0,
    ensures
        endian_fixed(kind, endian_fixed(kind, s)) == s,
{
    let once = endian_fixed(kind, s);
    assert forall|i: int| 0 <= i < s.len() implies #[trigger] endian_fixed(kind, once)[i] == s[i] by {
        let j = word_partner(i);
        assert(0 <= j < s.len());
        assert(in_colour_block(kind, j) == in_colour_block(kind, i));
    }
    assert(endian_fixed(kind, once) =~= s);
}

/// Bytes of the compressed data of a `width` by `height` image: one block per
/// 4x4 tile, counting partial tiles whole.
pub open spec fn compressed_bytes(kind: BlockKind, width: int, height: int) -> int {
    ((width + 3) / 4) * ((height + 3) / 4) * block_bytes(kind)
}

/// Bytes of the compressed data of a `width` by `height` image, as texpresso's
/// `Format::compressed_size` counts them.
pub fn bc_compressed_size(kind: BlockKind, width: u16, height: u16) -> (r: u64)
    ensures
        r == compressed_bytes(kind, width as int, height as int),
{
    let blocks_wide = (width as u64 + 3) / 4;
    let blocks_high = (height as u64 + 3) / 4;
    let size = block_size(kind);
    assert(blocks_wide * blocks_high * size <= 16384 * 16384 * 16) by (nonlinear_arith)
        requires
            blocks_wide <= 16384,
            blocks_high <= 16384,
            size <= 16,
    ;
    assert(blocks_wide * blocks_high <= 16384 * 16384) by (nonlinear_arith)
        requires
            blocks_wide <= 16384,
            blocks_high <= 16384,
    ;
    blocks_wide * blocks_high * size as u64
}

/// What texpresso makes of block-compressed `data` for a `width` by `height`
/// image: 4 bytes (R, G, B, A) per pixel, row by row.
pub uninterp spec fn bc_decoded(kind: BlockKind, data: Seq<u8>, width: nat, height: nat) -> Seq<u8>;

/// Relies on texpresso::Format::decompress: it fills an output of 4 bytes per
/// pixel from the blocks of `data`, reading no further than
/// `compressed_size(width, height)` bytes; the result depends on its arguments
/// alone. A width of 0 makes it panic, as does data shorter than that size.
#[verifier::external_body]
pub(crate) fn bc_decompress(kind: BlockKind, data: &[u8], width: usize, height: usize) -> (r: Vec<u8>)
    requires
        1 <= width <= 65535,
        height <= 65535,
        width * height * 4 <= usize::MAX,
        data@.len() >= compressed_bytes(kind, width as int, height as int),
    ensures
        r@.len() == width * height * 4,
        r@ == bc_decoded(kind, data@, width as nat, height as nat),
{
    let format = match kind {
        BlockKind::Bc1 => texpresso::Format::Bc1,
        BlockKind::Bc3 => texpresso::Format::Bc3,
    };
    let mut output = vec![0u8; width * height * 4];
    format.decompress(data, width, height, &mut output);
    output
}

} // verus!
