//! Laws that relate the decoder's results across inputs and calls.
use vstd::prelude::*;
use crate::header::{
    BmpError, BmpHeader, ReadFault, has_signature, header_outcome, le_u32_at,
    spec_pixel_offset,
};
use crate::bitmap::{PIXEL_BYTES, Color, color_at, decode_outcome, decoded_grid};

verus! {

/// The four little-endian bytes of `v`, least significant first.
pub open spec fn le_bytes(v: u32) -> Seq<u8> {
    let w1 = v / 256;
    let w2 = w1 / 256;
    let w3 = w2 / 256;
    seq![(v % 256) as u8, (w1 % 256) as u8, (w2 % 256) as u8, (w3 % 256) as u8]
}

/// Reading back the little-endian bytes of `v` gives `v`.
pub proof fn lemma_le_bytes_round_trip(v: u32)
    ensures
        le_u32_at(le_bytes(v), 0) == v,
{
    let x = v as int;
    let w1 = x / 256;
    let w2 = w1 / 256;
    let w3 = w2 / 256;
    assert(x == 256 * w1 + x % 256);
    assert(w1 == 256 * w2 + w1 % 256);
    assert(w2 == 256 * w3 + w2 % 256);
    assert(0 <= w3 < 256);
    assert(x % 256 + 256 * (w1 % 256) + 65536 * (w2 % 256) + 16777216 * (w3 % 256) == x)
        by (nonlinear_arith)
        requires
            x == 256 * w1 + x % 256,
            w1 == 256 * w2 + w1 % 256,
            w2 == 256 * w3 + w2 % 256,
            0 <= w3 < 256,
    ;
}

/// A stream of at least 14 bytes that does not start with `BM` is rejected as
/// an unsupported file type, by header-only and by full decoding, whatever
/// follows its first two bytes.
pub proof fn lemma_bad_signature_rejected(d: Seq<u8>)
    requires
        d.len() >= 14,
        !(d[0] == 0x42u8 && d[1] == 0x4Du8),
    ensures
        header_outcome(d) == Err::<BmpHeader, _>(BmpError::UnsupportedFileType),
        decode_outcome(d) == Err::<(u32, u32, Seq<Seq<Color>>), _>(BmpError::UnsupportedFileType),
{
}

/// A header with signature `BM` whose size and offset fields hold the
/// little-endian bytes of `size` and `offset` decodes to exactly those values,
/// whatever the reserved bytes and the rest of the stream hold.
pub proof fn lemma_header_round_trip(size: u32, offset: u32, d: Seq<u8>)
    requires
        d.len() >= 14,
        d[0] == 0x42u8,
        d[1] == 0x4Du8,
        d.subrange(2, 6) == le_bytes(size),
        d.subrange(10, 14) == le_bytes(offset),
    ensures
        header_outcome(d) == Ok::<_, BmpError>(BmpHeader { image_size: size, pixel_offset: offset }),
{
    lemma_le_bytes_round_trip(size);
    lemma_le_bytes_round_trip(offset);
    assert(le_u32_at(d, 2) == le_u32_at(d.subrange(2, 6), 0));
    assert(le_u32_at(d, 10) == le_u32_at(d.subrange(10, 14), 0));
}

/// In a decoded grid the first three bytes after the pixel offset form the
/// leftmost pixel of the last row, and the last three bytes of the pixel array
/// form the rightmost pixel of row 0.
pub proof fn lemma_first_and_last_pixel(d: Seq<u8>)
    requires
        decode_outcome(d) is Ok,
    ensures
        decoded_grid(d)[255][0] == color_at(d, spec_pixel_offset(d)),
        decoded_grid(d)[0][255] == color_at(d, spec_pixel_offset(d) + PIXEL_BYTES - 3),
{
}

/// A stream shorter than the 14-byte header fails with a read error, never
/// with an unsupported file type, whatever its first bytes are.
pub proof fn lemma_short_source_is_read_failure(d: Seq<u8>)
    requires
        d.len() < 14,
    ensures
        header_outcome(d) == Err::<BmpHeader, _>(BmpError::ReadError(ReadFault::TruncatedHeader)),
        decode_outcome(d) == Err::<(u32, u32, Seq<Seq<Color>>), _>(
            BmpError::ReadError(ReadFault::TruncatedHeader),
        ),
{
}

/// A well-signed stream whose declared pixel offset lies past its end fails
/// with a read error instead of yielding pixels.
pub proof fn lemma_offset_past_end_is_read_failure(d: Seq<u8>)
    requires
        d.len() >= 14,
        has_signature(d),
        spec_pixel_offset(d) > d.len(),
    ensures
        decode_outcome(d) == Err::<(u32, u32, Seq<Seq<Color>>), _>(
            BmpError::ReadError(ReadFault::TruncatedPixelData),
        ),
{
}

/// Decoding is deterministic: two streams with the same bytes decode to the
/// same outcome, field for field.
pub proof fn lemma_decode_deterministic(a: Seq<u8>, b: Seq<u8>)
    requires
        a =~= b,
    ensures
        decode_outcome(a) == decode_outcome(b),
        header_outcome(a) == header_outcome(b),
{
}

} // verus!
