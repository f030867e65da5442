//! Full decoding: the header, then a fixed 256 x 256 grid of BGR pixels stored
//! bottom row first.
use vstd::prelude::*;
use crate::header::{
    BmpError, BmpHeader, ReadFault, header_failure, spec_image_size, spec_pixel_offset,
};

verus! {

/// Number of pixel columns; the format variant read here is always this wide.
pub const WIDTH: usize = 256;

/// Number of pixel rows; the format variant read here is always this tall.
pub const HEIGHT: usize = 256;

/// Bytes per pixel: blue, green, red, with no alpha and no row padding.
pub const BYTES_PER_PIXEL: usize = 3;

/// Bytes in the whole pixel array: `WIDTH * HEIGHT * BYTES_PER_PIXEL`.
pub const PIXEL_BYTES: usize = 196608;

/// An RGB color.
#[derive(Clone, Copy, Debug, PartialEq, Eq, Structural)]
pub struct Color {
    pub r: u8,
    pub g: u8,
    pub b: u8,
}

/// A decoded bitmap. Row 0 of `pixels` is the bottom scanline of the image.
#[derive(Debug)]
pub struct Bmp {
    pub image_size: u32,
    pub pixel_offset: u32,
    pub pixels: Vec<Vec<Color>>,
}

/// Stream position of the blue byte of the pixel at `row`, `col`: rows are
/// stored from the top index down, columns left to right.
pub open spec fn pixel_pos(offset: int, row: int, col: int) -> int {
    offset + ((HEIGHT - 1 - row) * WIDTH + col) * BYTES_PER_PIXEL
}

/// The color whose blue, green and red bytes stand at `pos`, `pos + 1`, `pos + 2`.
pub open spec fn color_at(d: Seq<u8>, pos: int) -> Color {
    Color { r: d[pos + 2], g: d[pos + 1], b: d[pos] }
}

/// Row `row` of the grid decoded from `d`.
pub open spec fn decoded_row(d: Seq<u8>, row: int) -> Seq<Color> {
    Seq::new(WIDTH as nat, |col: int| color_at(d, pixel_pos(spec_pixel_offset(d), row, col)))
}

/// The grid decoded from `d`, row 0 first.
pub open spec fn decoded_grid(d: Seq<u8>) -> Seq<Seq<Color>> {
    Seq::new(HEIGHT as nat, |row: int| decoded_row(d, row))
}

/// Whether the whole pixel array lies inside `d` from the declared offset on.
pub open spec fn pixels_present(d: Seq<u8>) -> bool {
    spec_pixel_offset(d) + PIXEL_BYTES <= d.len()
}

/// The failure, if any, of fully decoding `d`: header failures come first;
/// an offset or pixel array reaching past the end is a read failure.
pub open spec fn decode_failure(d: Seq<u8>) -> Option<BmpError> {
    match header_failure(d) {
        Some(e) => Some(e),
        None => if pixels_present(d) {
            None
        } else {
            Some(BmpError::ReadError(ReadFault::TruncatedPixelData))
        },
    }
}

/// What full decoding of `d` yields: the size, the offset and the grid.
pub open spec fn decode_outcome(d: Seq<u8>) -> Result<(u32, u32, Seq<Seq<Color>>), BmpError> {
    match decode_failure(d) {
        Some(e) => Err(e),
        None => Ok((spec_image_size(d) as u32, spec_pixel_offset(d) as u32, decoded_grid(d))),
    }
}

impl Bmp {
    /// The pixel grid as nested sequences.
    pub open spec fn grid(&self) -> Seq<Seq<Color>> {
        Seq::new(self.pixels@.len(), |i: int| self.pixels@[i]@)
    }

    /// The fields of a decoded bitmap as plain values.
    pub open spec fn model(&self) -> (u32, u32, Seq<Seq<Color>>) {
        (self.image_size, self.pixel_offset, self.grid())
    }

    /// Decodes a whole BMP stream held in `data`: the header is read and its
    /// signature checked first; then the 256 x 256 pixel array is read from
    /// the declared offset. The declared file size is kept as it stands and is
    /// not compared with the stream's length; bytes after the pixel array are
    /// ignored.
    pub fn from_bytes(data: &[u8]) -> (r: Result<Bmp, BmpError>)
        ensures
            match r {
                Ok(bmp) => decode_outcome(data@) == Ok::<_, BmpError>(bmp.model()),
                Err(e) => decode_outcome(data@) == Err::<(u32, u32, Seq<Seq<Color>>), _>(e),
            },
    {
        let header = match BmpHeader::parse(data) {
            Ok(h) => h,
            Err(e) => return Err(e),
        };
        let offset = header.pixel_offset;
        if offset as u64 + PIXEL_BYTES as u64 > data.len() as u64 {
            return Err(BmpError::ReadError(ReadFault::TruncatedPixelData));
        }
        let offset = offset as usize;
        let mut pixels: Vec<Vec<Color>> = Vec::with_capacity(HEIGHT);
        let mut row: usize = 0;
        while row < HEIGHT
            invariant
                header_failure(data@) is None,
                offset == spec_pixel_offset(data@),
                offset + PIXEL_BYTES <= data@.len(),
                row <= HEIGHT,
                pixels@.len() == row,
                forall|i: int| 0 <= i < row ==> pixels@[i]@ == decoded_row(data@, i),
            decreases HEIGHT - row,
        {
            let line = decode_row(data, offset, row);
            pixels.push(line);
            row = row + 1;
        }
        let bmp = Bmp { image_size: header.image_size, pixel_offset: header.pixel_offset, pixels };
        assert(bmp.grid() =~= decoded_grid(data@));
        Ok(bmp)
    }

    /// The color at column `x` of row `y`, row 0 being the bottom scanline.
    pub fn pixel(&self, x: usize, y: usize) -> (c: Color)
        requires
            y < self.pixels@.len(),
            x < self.pixels@[y as int]@.len(),
        ensures
            c == self.grid()[y as int][x as int],
    {
        self.pixels[y][x]
    }
}

/// Decodes grid row `row` of the pixel array that starts at `offset` in `data`.
fn decode_row(data: &[u8], offset: usize, row: usize) -> (line: Vec<Color>)
    requires
        header_failure(data@) is None,
        offset == spec_pixel_offset(data@),
        offset + PIXEL_BYTES <= data@.len(),
        row < HEIGHT,
    ensures
        line@ == decoded_row(data@, row as int),
{
    let ghost k = (HEIGHT - 1 - row) as int;
    assert(0 <= k * 768 <= 195840) by (nonlinear_arith)
        requires
            0 <= k <= 255,
    ;
    let row_bytes: usize = WIDTH * BYTES_PER_PIXEL;
    let rows_below: usize = HEIGHT - 1 - row;
    assert(rows_below * row_bytes == k * 768);
    assert(offset + rows_below * row_bytes + 768 <= data@.len());
    let len: usize = data.len();
    let start: usize = offset + rows_below * row_bytes;
    let mut line: Vec<Color> = Vec::with_capacity(WIDTH);
    let mut col: usize = 0;
    while col < WIDTH
        invariant
            offset == spec_pixel_offset(data@),
            offset + PIXEL_BYTES <= data@.len(),
            row < HEIGHT,
            start == offset + (255 - row) * 768,
            start + 768 <= len,
            len == data@.len(),
            col <= WIDTH,
            line@.len() == col,
            forall|j: int| 0 <= j < col ==> line@[j] == color_at(data@, pixel_pos(offset as int, row as int, j)),
        decreases WIDTH - col,
    {
        assert(0 <= col * 3 <= 765) by (nonlinear_arith)
            requires
                col < 256,
        ;
        let pos: usize = start + col * 3;
        assert(pos == pixel_pos(offset as int, row as int, col as int)) by (nonlinear_arith)
            requires
                pos == start + col * 3,
                start == offset + (255 - row) * 768,
        ;
        let b = data[pos];
        let g = data[pos + 1];
        let r = data[pos + 2];
        line.push(Color { r, g, b });
        col = col + 1;
    }
    assert(line@ =~= decoded_row(data@, row as int));
    line
}

} // verus!
