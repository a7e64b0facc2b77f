use vstd::prelude::*;

use crate::pixel::{read_u16s, read_u32s, u16s_le, u32s_le, PixelType};

verus! {

/// The samples of one channel in one block, in their pixel type.
#[derive(Debug, Clone, PartialEq, Eq)]
pub enum PixelData {
    U32(Vec<u32>),
    /// 16-bit float samples, held as their bits.
    F16(Vec<u16>),
    /// 32-bit float samples, held as their bits.
    F32(Vec<u32>),
}

/// The model of one channel's samples.
pub enum Samples {
    U32(Seq<u32>),
    F16(Seq<u16>),
    F32(Seq<u32>),
}

impl View for PixelData {
    type V = Samples;

    open spec fn view(&self) -> Samples {
        match self {
            PixelData::U32(v) => Samples::U32(v@),
            PixelData::F16(v) => Samples::F16(v@),
            PixelData::F32(v) => Samples::F32(v@),
        }
    }
}

impl Samples {
    pub open spec fn pixel_type(self) -> PixelType {
        match self {
            Samples::U32(_) => PixelType::U32,
            Samples::F16(_) => PixelType::F16,
            Samples::F32(_) => PixelType::F32,
        }
    }

    pub open spec fn len(self) -> nat {
        match self {
            Samples::U32(s) => s.len(),
            Samples::F16(s) => s.len(),
            Samples::F32(s) => s.len(),
        }
    }

    /// The samples as little-endian bytes, back to back.
    pub open spec fn bytes(self) -> Seq<u8> {
        match self {
            Samples::U32(s) => u32s_le(s),
            Samples::F16(s) => u16s_le(s),
            Samples::F32(s) => u32s_le(s),
        }
    }
}

/// The shape of a block.
#[derive(Debug, Clone, Copy, PartialEq, Eq, Structural)]
pub enum BlockKind {
    ScanLine,
    Tile,
    DeepScanLine,
    DeepTile,
}

impl BlockKind {
    /// Whether each pixel of the block holds a variable number of samples.
    pub open spec fn spec_is_deep(self) -> bool {
        self == BlockKind::DeepScanLine || self == BlockKind::DeepTile
    }

    pub fn is_deep(self) -> (r: bool)
        ensures
            r == self.spec_is_deep(),
    {
        match self {
            BlockKind::DeepScanLine | BlockKind::DeepTile => true,
            _ => false,
        }
    }
}

/// A block of one or more whole scan lines.
#[derive(Debug, Clone, PartialEq, Eq)]
pub struct ScanLineBlock {
    pub per_channel_data: Vec<PixelData>,
}

/// A rectangular tile.
#[derive(Debug, Clone, PartialEq, Eq)]
pub struct TileBlock {
    pub per_channel_data: Vec<PixelData>,
}

/// Scan lines whose pixels each hold a variable number of samples.
#[derive(Debug, Clone, PartialEq, Eq)]
pub struct DeepScanLineBlock {
    /// The number of samples at each pixel, row by row.
    pub sample_counts: Vec<u32>,
    pub per_channel_data: Vec<PixelData>,
}

/// A tile whose pixels each hold a variable number of samples.
#[derive(Debug, Clone, PartialEq, Eq)]
pub struct DeepTileBlock {
    /// The number of samples at each pixel, row by row.
    pub sample_counts: Vec<u32>,
    pub per_channel_data: Vec<PixelData>,
}

/// The uncompressed content of one block.
#[derive(Debug, Clone, PartialEq, Eq)]
pub enum DataSection {
    ScanLine(ScanLineBlock),
    Tile(TileBlock),
    DeepScanLine(DeepScanLineBlock),
    DeepTile(DeepTileBlock),
}

/// The model of a block: its kind, the per-pixel sample counts (empty unless
/// the block is deep) and the samples of each channel in order.
pub struct SectionModel {
    pub kind: BlockKind,
    pub sample_counts: Seq<u32>,
    pub channels: Seq<Samples>,
}

pub open spec fn samples_of(v: Vec<PixelData>) -> Seq<Samples> {
    v@.map_values(|p: PixelData| p@)
}

impl View for DataSection {
    type V = SectionModel;

    open spec fn view(&self) -> SectionModel {
        match self {
            DataSection::ScanLine(b) => SectionModel {
                kind: BlockKind::ScanLine,
                sample_counts: seq![],
                channels: samples_of(b.per_channel_data),
            },
            DataSection::Tile(b) => SectionModel {
                kind: BlockKind::Tile,
                sample_counts: seq![],
                channels: samples_of(b.per_channel_data),
            },
            DataSection::DeepScanLine(b) => SectionModel {
                kind: BlockKind::DeepScanLine,
                sample_counts: b.sample_counts@,
                channels: samples_of(b.per_channel_data),
            },
            DataSection::DeepTile(b) => SectionModel {
                kind: BlockKind::DeepTile,
                sample_counts: b.sample_counts@,
                channels: samples_of(b.per_channel_data),
            },
        }
    }
}

impl DataSection {
    /// The kind of block this section holds.
    pub fn kind(&self) -> (r: BlockKind)
        ensures
            r == self@.kind,
    {
        match self {
            DataSection::ScanLine(_) => BlockKind::ScanLine,
            DataSection::Tile(_) => BlockKind::Tile,
            DataSection::DeepScanLine(_) => BlockKind::DeepScanLine,
            DataSection::DeepTile(_) => BlockKind::DeepTile,
        }
    }
}

/// The bytes of each channel, back to back in channel order.
pub open spec fn channels_bytes(cs: Seq<Samples>) -> Seq<u8>
    decreases cs.len(),
{
    if cs.len() == 0 {
        seq![]
    } else {
        cs[0].bytes() + channels_bytes(cs.skip(1))
    }
}

/// The uncompressed byte layout of a block: for a deep block the sample count of
/// each pixel as a little-endian `u32`, then the bytes of each channel in order.
pub open spec fn packed_bytes(m: SectionModel) -> Seq<u8> {
    if m.kind.spec_is_deep() {
        u32s_le(m.sample_counts) + channels_bytes(m.channels)
    } else {
        channels_bytes(m.channels)
    }
}

/// The number of bytes `n` samples of type `t` take.
pub open spec fn byte_len(t: PixelType, n: nat) -> nat {
    match t {
        PixelType::F16 => 2 * n,
        _ => 4 * n,
    }
}

/// The number of bytes channels of the given types and sample counts take.
pub open spec fn layout_len(types: Seq<PixelType>, counts: Seq<nat>) -> nat
    decreases types.len(),
{
    if types.len() == 0 {
        0
    } else {
        byte_len(types[0], counts[0]) + layout_len(types.skip(1), counts.skip(1))
    }
}

/// The first `n` samples of type `t` in `b`.
pub open spec fn read_samples(b: Seq<u8>, t: PixelType, n: nat) -> Samples {
    match t {
        PixelType::U32 => Samples::U32(read_u32s(b, n)),
        PixelType::F16 => Samples::F16(read_u16s(b, n)),
        PixelType::F32 => Samples::F32(read_u32s(b, n)),
    }
}

/// The channels of the given types and sample counts that `b` starts with.
pub open spec fn parse_channels(b: Seq<u8>, types: Seq<PixelType>, counts: Seq<nat>) -> Seq<Samples>
    decreases types.len(),
{
    if types.len() == 0 {
        seq![]
    } else {
        seq![read_samples(b, types[0], counts[0])] + parse_channels(
            b.skip(byte_len(types[0], counts[0]) as int),
            types.skip(1),
            counts.skip(1),
        )
    }
}

/// The sum of a sequence of counts.
pub open spec fn sum_counts(s: Seq<u32>) -> nat
    decreases s.len(),
{
    if s.len() == 0 {
        0
    } else {
        sum_counts(s.drop_last()) + s.last() as nat
    }
}

} // verus!
