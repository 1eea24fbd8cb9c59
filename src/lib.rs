//! Decoder for a small raster image container: a fixed header, an optional
//! palette of RGB triples, and a grid of one byte per pixel.

pub mod decode;
pub mod image;

pub use decode::decode;
pub use image::{DecodeError, Image};
