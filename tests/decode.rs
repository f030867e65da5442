use bmp_decoder::bitmap::{Bmp, Color, HEIGHT, PIXEL_BYTES, WIDTH};
use bmp_decoder::header::{BmpError, BmpHeader, ReadFault};

fn header(size: u32, offset: u32) -> Vec<u8> {
    let mut h = vec![0x42u8, 0x4D];
    h.extend_from_slice(&size.to_le_bytes());
    h.extend_from_slice(&[0, 0, 0, 0]);
    h.extend_from_slice(&offset.to_le_bytes());
    h
}

/// Header, padding up to `offset`, then the pixel array in stream order where
/// stream row `r`, column `c` holds the bytes `(c, r, r ^ c)`.
fn patterned(offset: u32) -> Vec<u8> {
    let mut d = header(0xDEAD_BEEF, offset);
    d.resize(offset as usize, 0xAA);
    for r in 0..256u32 {
        for c in 0..256u32 {
            d.push(c as u8);
            d.push(r as u8);
            d.push((r ^ c) as u8);
        }
    }
    d
}

#[test]
fn bad_signature_is_unsupported_at_any_length() {
    for first in [[0x42u8, 0x4E], [0x41, 0x4D], [0x00, 0x00], [0x4D, 0x42]] {
        for len in [14usize, 15, 100, 14 + PIXEL_BYTES] {
            let mut d = vec![0u8; len];
            d[0] = first[0];
            d[1] = first[1];
            assert_eq!(BmpHeader::parse(&d), Err(BmpError::UnsupportedFileType));
            assert!(matches!(Bmp::from_bytes(&d), Err(BmpError::UnsupportedFileType)));
        }
    }
    let mut d = patterned(14);
    d[1] = b'N';
    assert!(matches!(Bmp::from_bytes(&d), Err(BmpError::UnsupportedFileType)));
}

#[test]
fn header_fields_are_little_endian() {
    for (size, offset) in [(0u32, 0u32), (1, 54), (0x1234_5678, 0x9ABC_DEF0), (u32::MAX, u32::MAX), (256, 65536)] {
        let h = header(size, offset);
        assert_eq!(
            BmpHeader::parse(&h),
            Ok(BmpHeader { image_size: size, pixel_offset: offset })
        );
    }
    let raw = [0x42u8, 0x4D, 0x78, 0x56, 0x34, 0x12, 9, 9, 9, 9, 0x36, 0x00, 0x01, 0x00];
    assert_eq!(
        BmpHeader::parse(&raw),
        Ok(BmpHeader { image_size: 0x1234_5678, pixel_offset: 0x0001_0036 })
    );
}

#[test]
fn reserved_bytes_are_ignored() {
    let mut h = header(7, 54);
    h[6..10].copy_from_slice(&[1, 2, 3, 4]);
    assert_eq!(BmpHeader::parse(&h), Ok(BmpHeader { image_size: 7, pixel_offset: 54 }));
}

#[test]
fn pixels_are_bottom_up_bgr() {
    let d = patterned(54);
    let bmp = Bmp::from_bytes(&d).unwrap();
    assert_eq!(bmp.image_size, 0xDEAD_BEEF);
    assert_eq!(bmp.pixel_offset, 54);
    assert_eq!(bmp.pixels.len(), HEIGHT);
    for row in 0..HEIGHT {
        assert_eq!(bmp.pixels[row].len(), WIDTH);
        let r = (255 - row) as u8;
        for col in 0..WIDTH {
            let c = col as u8;
            assert_eq!(bmp.pixels[row][col], Color { b: c, g: r, r: r ^ c });
            assert_eq!(bmp.pixel(col, row), bmp.pixels[row][col]);
        }
    }
}

#[test]
fn first_and_last_pixel_bytes() {
    let offset = 100usize;
    let d = patterned(offset as u32);
    let bmp = Bmp::from_bytes(&d).unwrap();
    assert_eq!(bmp.pixels[255][0], Color { b: d[offset], g: d[offset + 1], r: d[offset + 2] });
    let last = offset + PIXEL_BYTES - 3;
    assert_eq!(bmp.pixels[0][255], Color { b: d[last], g: d[last + 1], r: d[last + 2] });
    assert_eq!(bmp.pixels[0][255], Color { b: 255, g: 255, r: 0 });
}

#[test]
fn offset_inside_header_is_honoured() {
    let mut d = header(1, 2);
    d.resize(2 + PIXEL_BYTES, 0x11);
    let bmp = Bmp::from_bytes(&d).unwrap();
    assert_eq!(bmp.pixel_offset, 2);
    assert_eq!(bmp.pixels[255][0], Color { b: d[2], g: d[3], r: d[4] });
    assert_eq!(bmp.pixels[0][0], Color { r: 0x11, g: 0x11, b: 0x11 });
}

#[test]
fn short_source_is_read_error() {
    let full = header(10, 54);
    for len in 0..14 {
        let d = &full[..len];
        let expected = Err(BmpError::ReadError(ReadFault::TruncatedHeader));
        assert_eq!(BmpHeader::parse(d), expected);
        assert!(matches!(Bmp::from_bytes(d), Err(BmpError::ReadError(ReadFault::TruncatedHeader))));
    }
    let junk = [0u8, 1, 2];
    assert!(matches!(Bmp::from_bytes(&junk), Err(BmpError::ReadError(ReadFault::TruncatedHeader))));
}

#[test]
fn offset_past_end_is_read_error() {
    let d = header(14, 1000);
    assert_eq!(BmpHeader::parse(&d), Ok(BmpHeader { image_size: 14, pixel_offset: 1000 }));
    assert!(matches!(Bmp::from_bytes(&d), Err(BmpError::ReadError(ReadFault::TruncatedPixelData))));
    let far = header(14, u32::MAX);
    assert!(matches!(Bmp::from_bytes(&far), Err(BmpError::ReadError(ReadFault::TruncatedPixelData))));
}

#[test]
fn pixel_array_one_byte_short_is_read_error() {
    let mut d = patterned(54);
    d.pop();
    assert!(matches!(Bmp::from_bytes(&d), Err(BmpError::ReadError(ReadFault::TruncatedPixelData))));
}

#[test]
fn trailing_bytes_are_ignored() {
    let mut d = patterned(54);
    d.extend_from_slice(&[1, 2, 3]);
    let bmp = Bmp::from_bytes(&d).unwrap();
    assert_eq!(bmp.pixels[0][255], Color { b: 255, g: 255, r: 0 });
}

#[test]
fn decoding_is_deterministic() {
    let a = patterned(60);
    let b = a.clone();
    let x = Bmp::from_bytes(&a).unwrap();
    let y = Bmp::from_bytes(&b).unwrap();
    assert_eq!(x.image_size, y.image_size);
    assert_eq!(x.pixel_offset, y.pixel_offset);
    assert_eq!(x.pixels, y.pixels);
    assert_eq!(BmpHeader::parse(&a), BmpHeader::parse(&b));
}
