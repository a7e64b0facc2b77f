use vstd::prelude::*;

verus! {

/// The compression methods a block of pixel data may be stored with.
#[derive(Debug, Clone, Copy, PartialEq, Eq, Structural)]
pub enum Compression {
    /// Values are stored as they are.
    Uncompressed,
    /// Run-length encoded horizontal differences, one line at a time.
    RLE,
    /// Zlib over byte differences, one scan line per block.
    ZIPS,
    /// Zlib over byte differences, sixteen scan lines per block.
    ZIP,
    /// Wavelet based.
    PIZ,
    /// Lossy, 24 bit floats.
    PXR24,
    /// Lossy, fixed rate.
    B44,
    /// Lossy, fixed rate, with flat areas compressed further.
    B44A,
}

impl Compression {
    /// The number of consecutive scan lines grouped into one block.
    pub open spec fn spec_scan_lines_per_block(self) -> nat {
        match self {
            Compression::Uncompressed | Compression::RLE | Compression::ZIPS => 1,
            Compression::ZIP | Compression::PXR24 => 16,
            Compression::PIZ | Compression::B44 | Compression::B44A => 32,
        }
    }

    /// Whether blocks with a variable number of samples per pixel may use this method.
    pub open spec fn spec_supports_deep_data(self) -> bool {
        match self {
            Compression::Uncompressed | Compression::RLE | Compression::ZIPS | Compression::ZIP => true,
            _ => false,
        }
    }

    /// Whether this library holds a codec for the method.
    pub open spec fn spec_is_implemented(self) -> bool {
        match self {
            Compression::Uncompressed | Compression::ZIPS | Compression::ZIP => true,
            _ => false,
        }
    }

    /// For scan line images and deep scan line images, one or more scan lines are
    /// stored together as a scan line block; how many depends on the method.
    pub fn scan_lines_per_block(self) -> (r: usize)
        ensures
            r == self.spec_scan_lines_per_block(),
    {
        match self {
            Compression::Uncompressed | Compression::RLE | Compression::ZIPS => 1,
            Compression::ZIP | Compression::PXR24 => 16,
            Compression::PIZ | Compression::B44 | Compression::B44A => 32,
        }
    }

    pub fn supports_deep_data(self) -> (r: bool)
        ensures
            r == self.spec_supports_deep_data(),
    {
        match self {
            Compression::Uncompressed | Compression::RLE | Compression::ZIPS | Compression::ZIP => true,
            _ => false,
        }
    }
}

/// The table of method properties, for every method.
pub proof fn lemma_method_properties(m: Compression)
    ensures
        m.spec_scan_lines_per_block() == 1 <==> (m == Compression::Uncompressed || m == Compression::RLE
            || m == Compression::ZIPS),
        m.spec_scan_lines_per_block() == 16 <==> (m == Compression::ZIP || m == Compression::PXR24),
        m.spec_scan_lines_per_block() == 32 <==> (m == Compression::PIZ || m == Compression::B44
            || m == Compression::B44A),
        m.spec_supports_deep_data() <==> (m == Compression::Uncompressed || m == Compression::RLE
            || m == Compression::ZIPS || m == Compression::ZIP),
{
}

} // verus!
