//! Conversion of 6912-byte ZX Spectrum screen dumps into 4-bit-per-pixel
//! windowed bitmap files.

pub mod bitmap;
pub mod color;
pub mod error;
pub mod layout;
pub mod row;
pub mod run;
pub mod screen;
