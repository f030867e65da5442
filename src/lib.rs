//! Decoding of uncompressed, bottom-up, 24-bit Windows Bitmap files.
pub mod header;
pub mod bitmap;
pub mod laws;
