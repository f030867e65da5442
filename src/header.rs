//! The 14-byte BMP file header: signature check and field extraction.
use vstd::prelude::*;

verus! {

/// Length in bytes of the BMP file header.
pub const HEADER_LEN: usize = 14;

/// Why a read from the byte source failed.
#[derive(Clone, Copy, Debug, PartialEq, Eq, Structural)]
pub enum ReadFault {
    /// The source ended before the 14 header bytes were read.
    TruncatedHeader,
    /// The source ended before the full pixel array was read.
    TruncatedPixelData,
}

/// The two kinds of decoding failure.
#[derive(Clone, Copy, Debug, PartialEq, Eq, Structural)]
pub enum BmpError {
    /// The stream does not start with the `BM` signature.
    UnsupportedFileType,
    /// Reading or seeking in the source failed.
    ReadError(ReadFault),
}

/// The two scalar fields that the file header carries.
#[derive(Clone, Copy, Debug, PartialEq, Eq, Structural)]
pub struct BmpHeader {
    /// The declared file size, taken verbatim (bytes 2..6).
    pub image_size: u32,
    /// Absolute offset of the first pixel byte (bytes 10..14).
    pub pixel_offset: u32,
}

/// The little-endian value of the four bytes of `b` starting at `i`.
pub open spec fn le_u32_at(b: Seq<u8>, i: int) -> int {
    b[i] + 256 * b[i + 1] + 65536 * b[i + 2] + 16777216 * b[i + 3]
}

/// Whether the stream starts with the ASCII signature `BM`.
pub open spec fn has_signature(d: Seq<u8>) -> bool {
    d[0] == 0x42u8 && d[1] == 0x4Du8
}

/// The declared file size of a stream of at least 14 bytes.
pub open spec fn spec_image_size(d: Seq<u8>) -> int {
    le_u32_at(d, 2)
}

/// The declared pixel-data offset of a stream of at least 14 bytes.
pub open spec fn spec_pixel_offset(d: Seq<u8>) -> int {
    le_u32_at(d, 10)
}

/// The failure, if any, of reading and checking the header of `d`: a short
/// stream is a read failure, whatever its first bytes are.
pub open spec fn header_failure(d: Seq<u8>) -> Option<BmpError> {
    if d.len() < HEADER_LEN {
        Some(BmpError::ReadError(ReadFault::TruncatedHeader))
    } else if !has_signature(d) {
        Some(BmpError::UnsupportedFileType)
    } else {
        None
    }
}

/// What header-only decoding of `d` yields.
pub open spec fn header_outcome(d: Seq<u8>) -> Result<BmpHeader, BmpError> {
    match header_failure(d) {
        Some(e) => Err(e),
        None => Ok(
            BmpHeader {
                image_size: spec_image_size(d) as u32,
                pixel_offset: spec_pixel_offset(d) as u32,
            },
        ),
    }
}

/// Relies on byteorder's `LittleEndian::read_u32`, which returns
/// `u32::from_le_bytes` of the first four bytes of its buffer.
#[verifier::external_body]
fn read_le_u32(b: [u8; 4]) -> (r: u32)
    ensures
        r as int == le_u32_at(b@, 0),
{
    <byteorder::LittleEndian as byteorder::ByteOrder>::read_u32(&b)
}

impl BmpHeader {
    /// Reads the file header at the start of `data`: the signature is checked
    /// first, then the size and pixel-offset fields are taken as little-endian
    /// unsigned 32-bit integers.
    pub fn parse(data: &[u8]) -> (r: Result<BmpHeader, BmpError>)
        ensures
            r == header_outcome(data@),
    {
        if data.len() < HEADER_LEN {
            return Err(BmpError::ReadError(ReadFault::TruncatedHeader));
        }
        if data[0] != 0x42u8 || data[1] != 0x4Du8 {
            return Err(BmpError::UnsupportedFileType);
        }
        let image_size = read_le_u32([data[2], data[3], data[4], data[5]]);
        let pixel_offset = read_le_u32([data[10], data[11], data[12], data[13]]);
        Ok(BmpHeader { image_size, pixel_offset })
    }
}

} // verus!
