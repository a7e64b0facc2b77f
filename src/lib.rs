//! Pixel-block compression for an OpenEXR-style image codec: typed per-channel
//! samples are packed into flat little-endian byte buffers, optionally run
//! through a byte delta filter and zlib, and decoded back.

pub mod delta;
pub mod dispatch;
pub mod error;
pub mod geometry;
pub mod method;
pub mod pixel;
pub mod storage;
pub mod uncompressed;
pub mod zip;

pub use dispatch::{compress, decompress};
pub use error::CompressionError;
pub use method::Compression;
pub use storage::DataSection;
