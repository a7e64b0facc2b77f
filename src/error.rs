use vstd::prelude::*;

use crate::method::Compression;

verus! {

/// What can go wrong while compressing or decompressing a block.
#[derive(Debug, Clone, PartialEq, Eq)]
pub enum CompressionError {
    /// The method's sample transform is not implemented here.
    Unsupported(Compression),
    /// The declared size (first) differs from the size the data actually has (second).
    SizeMismatch(usize, usize),
    /// Fewer bytes are available than the block geometry requires.
    TruncatedInput,
    /// Zlib rejected the compressed input.
    DecodeFailure(String),
    /// Zlib failed to produce output.
    EncodeFailure(String),
}

} // verus!
