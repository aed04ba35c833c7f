use vstd::prelude::*;

use crate::bytes::{le_u32, read_le_u32};
use crate::error::VtfxError;

verus! {

/// The marker at the start of a resource that the engine compressed with LZMA.
pub const LZMA_MAGIC: [u8; 4] = [0x4c, 0x5a, 0x4d, 0x41];

/// Bytes of the engine's LZMA header: marker, uncompressed size, compressed
/// size, a properties byte and four more property bytes.
pub const VALVE_LZMA_HEADER_LEN: usize = 17;

/// Whether `s` begins with the marker `LZMA`.
pub open spec fn has_lzma_magic(s: Seq<u8>) -> bool {
    &&& s.len() >= 4
    &&& s[0] == 0x4cu8
    &&& s[1] == 0x5au8
    &&& s[2] == 0x4du8
    &&& s[3] == 0x41u8
}

/// Whether the resource begins with the marker `LZMA`.
pub fn is_lzma_compressed(resource: &[u8]) -> (r: bool)
    ensures
        r == has_lzma_magic(resource@),
{
    resource.len() >= 4 && resource[0] == 0x4c && resource[1] == 0x5a && resource[2] == 0x4d && resource[3] == 0x41
}

/// How many times `unit` is taken from `value` by a loop that stops once
/// `count`, raised by one each time, reaches 5.
pub open spec fn subtractions(count: int, value: int, unit: int) -> int {
    if count >= 5 {
        0
    } else if value / unit < 5 - count {
        value / unit
    } else {
        5 - count
    }
}

/// Splits an LZMA properties byte as the engine does: 45 is taken away while
/// `pb` stays under 5, raising `pb`; then 9 while `lp` stays under 5, raising
/// `lp`; what is left is `lc`, and `prop0` keeps it too.
pub fn get_valve_lzma_properties(prop0: &mut u8, pb: &mut i32, lp: &mut i32, lc: &mut i32)
    ensures
        *final(pb) == *old(pb) + subtractions(*old(pb) as int, *old(prop0) as int, 45),
        *final(lp) == *old(lp) + subtractions(
            *old(lp) as int,
            *old(prop0) - 45 * subtractions(*old(pb) as int, *old(prop0) as int, 45),
            9,
        ),
        *final(prop0) == *old(prop0) - 45 * subtractions(*old(pb) as int, *old(prop0) as int, 45) - 9
            * subtractions(
            *old(lp) as int,
            *old(prop0) - 45 * subtractions(*old(pb) as int, *old(prop0) as int, 45),
            9,
        ),
        *final(lc) == *final(prop0),
{
    let ghost p0 = *prop0 as int;
    let ghost pb0 = *pb as int;
    let ghost lp0 = *lp as int;
    while *pb < 5 && *prop0 >= 45
        invariant
            0 <= *pb - pb0 <= subtractions(pb0, p0, 45),
            *prop0 == p0 - 45 * (*pb - pb0),
            pb0 < 5 ==> *pb <= 5,
            pb0 >= 5 ==> *pb == pb0,
        decreases *prop0,
    {
        *pb = *pb + 1;
        *prop0 = *prop0 - 45;
    }
    let ghost p1 = *prop0 as int;
    while *lp < 5 && *prop0 >= 9
        invariant
            0 <= *lp - lp0 <= subtractions(lp0, p1, 9),
            *prop0 == p1 - 9 * (*lp - lp0),
            lp0 < 5 ==> *lp <= 5,
            lp0 >= 5 ==> *lp == lp0,
        decreases *prop0,
    {
        *lp = *lp + 1;
        *prop0 = *prop0 - 9;
    }
    *lc = *prop0 as i32;
}

/// The dictionary size that the engine's header implies: the three bytes
/// after the properties byte, little-endian, or 1 where they are all zero.
pub open spec fn valve_dictionary_size(s: Seq<u8>) -> int {
    let d = s[13] + s[14] * 256 + s[15] * 65536;
    if d == 0 { 1 } else { d }
}

/// The four little-endian bytes of `v`.
pub open spec fn le_bytes(v: int) -> Seq<u8> {
    seq![(v % 256) as u8, ((v / 256) % 256) as u8, ((v / 65536) % 256) as u8, ((v / 16777216) % 256) as u8]
}

/// The standard LZMA stream held by an engine LZMA resource `s`: its
/// properties byte, the dictionary size (4 bytes), its uncompressed size
/// widened to 8 bytes, then the payload after the engine's 17-byte header.
pub open spec fn rebuilt_stream(s: Seq<u8>) -> Seq<u8> {
    seq![s[12]] + le_bytes(valve_dictionary_size(s)) + s.subrange(4, 8) + seq![0u8, 0u8, 0u8, 0u8] + s.subrange(
        17,
        s.len() as int,
    )
}

/// Rebuilds the standard LZMA stream that the engine's LZMA resource holds.
/// Fails on a resource too short to hold the engine's header.
pub fn rebuild_lzma_stream(resource: &[u8]) -> (r: Result<Vec<u8>, VtfxError>)
    ensures
        r is Err <==> resource@.len() < VALVE_LZMA_HEADER_LEN,
        r is Err ==> r == Err::<Vec<u8>, VtfxError>(VtfxError::DecompressionError),
        r matches Ok(v) ==> v@ == rebuilt_stream(resource@),
{
    if resource.len() < VALVE_LZMA_HEADER_LEN {
        return Err(VtfxError::DecompressionError);
    }
    let mut dictionary_size: u32 = resource[13] as u32 + resource[14] as u32 * 256 + resource[15] as u32 * 65536;
    if dictionary_size == 0 {
        dictionary_size = 1;
    }
    let mut stream: Vec<u8> = Vec::new();
    stream.push(resource[12]);
    stream.push((dictionary_size % 256) as u8);
    stream.push(((dictionary_size / 256) % 256) as u8);
    stream.push(((dictionary_size / 65536) % 256) as u8);
    stream.push(((dictionary_size / 16777216) % 256) as u8);
    let mut i: usize = 4;
    while i < 8
        invariant
            4 <= i <= 8,
            resource@.len() >= VALVE_LZMA_HEADER_LEN,
            stream@ == seq![resource@[12]] + le_bytes(dictionary_size as int) + resource@.subrange(4, i as int),
        decreases 8 - i,
    {
        stream.push(resource[i]);
        assert(resource@.subrange(4, i + 1) =~= resource@.subrange(4, i as int).push(resource@[i as int]));
        i = i + 1;
    }
    let mut k: usize = 0;
    while k < 4
        invariant
            k <= 4,
            stream@.len() == 9 + k,
            forall|j: int| 9 <= j < stream@.len() ==> #[trigger] stream@[j] == 0,
            stream@.subrange(0, 9) == seq![resource@[12]] + le_bytes(dictionary_size as int) + resource@.subrange(4, 8),
        decreases 4 - k,
    {
        let ghost before = stream@;
        stream.push(0);
        assert(stream@.subrange(0, 9) =~= before.subrange(0, 9));
        k = k + 1;
    }
    let mut i: usize = VALVE_LZMA_HEADER_LEN;
    while i < resource.len()
        invariant
            VALVE_LZMA_HEADER_LEN <= i <= resource@.len(),
            stream@ == seq![resource@[12]] + le_bytes(dictionary_size as int) + resource@.subrange(4, 8) + seq![
                0u8,
                0u8,
                0u8,
                0u8,
            ] + resource@.subrange(17, i as int),
        decreases resource@.len() - i,
    {
        stream.push(resource[i]);
        assert(resource@.subrange(17, i + 1) =~= resource@.subrange(17, i as int).push(resource@[i as int]));
        i = i + 1;
    }
    assert(dictionary_size == valve_dictionary_size(resource@));
    Ok(stream)
}

/// The rebuilt stream starts with the resource's properties byte, followed by
/// a dictionary size that is never zero.
pub proof fn lemma_rebuilt_stream_header(s: Seq<u8>)
    requires
        s.len() >= VALVE_LZMA_HEADER_LEN,
    ensures
        rebuilt_stream(s)[0] == s[12],
        le_u32(rebuilt_stream(s), 1) == valve_dictionary_size(s),
        le_u32(rebuilt_stream(s), 1) >= 1,
{
    let r = rebuilt_stream(s);
    let d = valve_dictionary_size(s);
    assert(1 <= d < 16777216);
    assert(r[1] == (d % 256) as u8 && r[2] == ((d / 256) % 256) as u8 && r[3] == ((d / 65536) % 256) as u8 && r[4]
        == ((d / 16777216) % 256) as u8);
    assert(d == d % 256 + ((d / 256) % 256) * 256 + ((d / 65536) % 256) * 65536 + ((d / 16777216) % 256) * 16777216)
        by (nonlinear_arith)
        requires
            0 <= d < 16777216,
    ;
}

/// Declares lzma-rs's error type, which the decoder returns.
#[verifier::external_type_specification]
#[verifier::external_body]
pub struct ExLzmaError(lzma_rs::error::Error);

/// What a standard LZMA decoder makes of a stream: the decoded bytes, or
/// `None` where the stream is malformed.
pub uninterp spec fn lzma_decoded(stream: Seq<u8>) -> Option<Seq<u8>>;

/// Relies on lzma_rs::lzma_decompress: decodes a standard LZMA stream (header
/// of properties byte, dictionary size and uncompressed size, then the
/// payload); the outcome depends on the stream's bytes alone.
#[verifier::external_body]
fn lzma_decompress(stream: &[u8]) -> (r: Result<Vec<u8>, lzma_rs::error::Error>)
    ensures
        r is Ok <==> lzma_decoded(stream@) is Some,
        r matches Ok(v) ==> lzma_decoded(stream@) == Some(v@),
{
    let mut decoded: Vec<u8> = Vec::new();
    let mut input: &[u8] = stream;
    match lzma_rs::lzma_decompress(&mut input, &mut decoded) {
        Ok(()) => Ok(decoded),
        Err(e) => Err(e),
    }
}

/// The decoded payload of an engine LZMA resource `s` (at least as long as the
/// engine's header): `None` where its rebuilt stream does not decode, or where
/// the decoded length differs from the uncompressed size its header gives.
pub open spec fn lzma_resource_decoded(s: Seq<u8>) -> Option<Seq<u8>> {
    match lzma_decoded(rebuilt_stream(s)) {
        Some(d) => if d.len() == le_u32(s, 4) { Some(d) } else { None },
        None => None,
    }
}

/// Accepts what the decoder made of the stream rebuilt from `resource`: the
/// bytes, when there are as many as the resource's header announces.
pub fn check_lzma_output(resource: &[u8], decoded: Option<Vec<u8>>) -> (r: Result<Vec<u8>, VtfxError>)
    requires
        resource@.len() >= VALVE_LZMA_HEADER_LEN,
    ensures
        decoded is None ==> r == Err::<Vec<u8>, VtfxError>(VtfxError::DecompressionError),
        decoded matches Some(d) ==> (if d@.len() == le_u32(resource@, 4) {
            r matches Ok(v) && v@ == d@
        } else {
            r == Err::<Vec<u8>, VtfxError>(VtfxError::DecompressionError)
        }),
{
    match decoded {
        Some(d) => {
            let actual_size = read_le_u32(resource, 4);
            if d.len() as u64 == actual_size as u64 {
                Ok(d)
            } else {
                Err(VtfxError::DecompressionError)
            }
        },
        None => Err(VtfxError::DecompressionError),
    }
}

/// Decompresses a resource that the engine compressed with LZMA.
pub fn decompress_lzma(resource: &[u8]) -> (r: Result<Vec<u8>, VtfxError>)
    ensures
        resource@.len() < VALVE_LZMA_HEADER_LEN ==> r == Err::<Vec<u8>, VtfxError>(VtfxError::DecompressionError),
        r is Err ==> r == Err::<Vec<u8>, VtfxError>(VtfxError::DecompressionError),
        resource@.len() >= VALVE_LZMA_HEADER_LEN ==> match lzma_resource_decoded(resource@) {
            Some(d) => r matches Ok(v) && v@ == d,
            None => r is Err,
        },
{
    let stream = rebuild_lzma_stream(resource)?;
    let decoded = match lzma_decompress(stream.as_slice()) {
        Ok(v) => Some(v),
        Err(_) => None,
    };
    check_lzma_output(resource, decoded)
}

} // verus!
