//! The identity codec: samples as little-endian bytes, channel after channel.
use vstd::prelude::*;

use crate::error::CompressionError;
use crate::geometry::{BlockGeometry, Channel, channels_wf};
use crate::pixel::{
    lemma_u16s_le_len, lemma_u16s_round_trip, lemma_u32s_le_len, lemma_u32s_round_trip,
    push_u16s, push_u32s, read_u16s_at, read_u32s, read_u32s_at, u32s_le, PixelType,
};
use crate::storage::{
    byte_len, channels_bytes, layout_len, packed_bytes, parse_channels, read_samples,
    samples_of, sum_counts, BlockKind, DataSection, DeepScanLineBlock, DeepTileBlock, PixelData,
    Samples, ScanLineBlock, SectionModel, TileBlock,
};

verus! {

pub open spec fn channel_types(chans: Seq<Channel>) -> Seq<PixelType> {
    chans.map_values(|c: Channel| c.pixel_type)
}

/// The sample count of each channel in a block that is not deep.
pub open spec fn flat_counts(g: BlockGeometry, chans: Seq<Channel>) -> Seq<nat> {
    chans.map_values(|c: Channel| g.spec_sample_count(c))
}

/// In a deep block every channel holds the total of the per-pixel counts.
pub open spec fn deep_counts(chans: Seq<Channel>, total: nat) -> Seq<nat> {
    chans.map_values(|c: Channel| total)
}

/// The per-pixel sample counts that a deep block's bytes start with.
pub open spec fn leading_counts(b: Seq<u8>, g: BlockGeometry) -> Seq<u32> {
    read_u32s(b, g.spec_pixel_count())
}

/// The sample count of each channel, given the bytes of a block of `kind`.
pub open spec fn channel_counts(kind: BlockKind, b: Seq<u8>, chans: Seq<Channel>, g: BlockGeometry) -> Seq<nat> {
    if kind.spec_is_deep() {
        deep_counts(chans, sum_counts(leading_counts(b, g)))
    } else {
        flat_counts(g, chans)
    }
}

/// The number of bytes in front of the channel data.
pub open spec fn header_len(kind: BlockKind, g: BlockGeometry) -> nat {
    if kind.spec_is_deep() {
        4 * g.spec_pixel_count()
    } else {
        0
    }
}

/// Whether `b` holds all that a block of `kind` with `chans` and `g` needs.
pub open spec fn unpack_fits(kind: BlockKind, b: Seq<u8>, chans: Seq<Channel>, g: BlockGeometry) -> bool {
    b.len() >= header_len(kind, g) && b.len() - header_len(kind, g) >= layout_len(
        channel_types(chans),
        channel_counts(kind, b, chans, g),
    )
}

/// The number of bytes a block of `kind` read from `b` takes.
pub open spec fn unpacked_len(kind: BlockKind, b: Seq<u8>, chans: Seq<Channel>, g: BlockGeometry) -> nat {
    header_len(kind, g) + layout_len(channel_types(chans), channel_counts(kind, b, chans, g))
}

/// The block of `kind` with `chans` and `g` that `b` starts with.
pub open spec fn unpacked(kind: BlockKind, b: Seq<u8>, chans: Seq<Channel>, g: BlockGeometry) -> SectionModel {
    SectionModel {
        kind,
        sample_counts: if kind.spec_is_deep() {
            leading_counts(b, g)
        } else {
            seq![]
        },
        channels: parse_channels(
            b.skip(header_len(kind, g) as int),
            channel_types(chans),
            channel_counts(kind, b, chans, g),
        ),
    }
}

/// Whether `m` is a block of `kind` for the channels `chans` laid out by `g`:
/// each channel has its type and the number of samples the geometry gives it
/// (for a deep block: one count per pixel, and their total in each channel).
pub open spec fn section_fits(m: SectionModel, kind: BlockKind, chans: Seq<Channel>, g: BlockGeometry) -> bool {
    &&& m.kind == kind
    &&& m.channels.len() == chans.len()
    &&& kind.spec_is_deep() ==> m.sample_counts.len() == g.spec_pixel_count()
    &&& !kind.spec_is_deep() ==> m.sample_counts.len() == 0
    &&& forall|i: int|
        0 <= i < chans.len() ==> {
            &&& (#[trigger] m.channels[i]).pixel_type() == chans[i].pixel_type
            &&& m.channels[i].len() == if kind.spec_is_deep() {
                sum_counts(m.sample_counts)
            } else {
                g.spec_sample_count(chans[i])
            }
        }
}

fn push_channel(out: &mut Vec<u8>, p: &PixelData)
    ensures
        final(out)@ == old(out)@ + p@.bytes(),
{
    match p {
        PixelData::U32(v) => push_u32s(out, v),
        PixelData::F16(v) => push_u16s(out, v),
        PixelData::F32(v) => push_u32s(out, v),
    }
}

fn push_channels(out: &mut Vec<u8>, cs: &Vec<PixelData>)
    ensures
        final(out)@ == old(out)@ + channels_bytes(samples_of(*cs)),
{
    let n = cs.len();
    let mut i: usize = 0;
    assert(samples_of(*cs).skip(0) =~= samples_of(*cs));
    while i < n
        invariant
            n == cs@.len(),
            i <= n,
            out@ + channels_bytes(samples_of(*cs).skip(i as int)) == old(out)@ + channels_bytes(
                samples_of(*cs),
            ),
        decreases n - i,
    {
        let ghost before = out@;
        push_channel(out, &cs[i]);
        proof {
            let rest = samples_of(*cs).skip(i as int);
            assert(rest.skip(1) =~= samples_of(*cs).skip(i + 1));
            assert(rest[0] == cs@[i as int]@);
            assert(out@ + channels_bytes(samples_of(*cs).skip(i + 1)) =~= before + channels_bytes(rest));
        }
        i = i + 1;
    }
    assert(out@ + channels_bytes(samples_of(*cs).skip(n as int)) =~= out@);
}

/// Serialises a block: for a deep block the per-pixel sample counts first, then
/// each channel's samples in channel order, all little-endian, with no padding.
pub fn pack(data: DataSection) -> (r: Result<Vec<u8>, CompressionError>)
    ensures
        r is Ok,
        r->Ok_0@ == packed_bytes(data@),
{
    let mut out: Vec<u8> = Vec::new();
    match &data {
        DataSection::ScanLine(b) => push_channels(&mut out, &b.per_channel_data),
        DataSection::Tile(b) => push_channels(&mut out, &b.per_channel_data),
        DataSection::DeepScanLine(b) => {
            push_u32s(&mut out, &b.sample_counts);
            push_channels(&mut out, &b.per_channel_data);
        },
        DataSection::DeepTile(b) => {
            push_u32s(&mut out, &b.sample_counts);
            push_channels(&mut out, &b.per_channel_data);
        },
    }
    assert(out@ =~= packed_bytes(data@));
    Ok(out)
}

/// The sample count of each channel: `total` for each, or what `g` gives each.
pub open spec fn counts_for(chans: Seq<Channel>, g: BlockGeometry, total: Option<u64>) -> Seq<nat> {
    match total {
        Some(t) => deep_counts(chans, t as nat),
        None => flat_counts(g, chans),
    }
}

proof fn lemma_sum_counts_prefix(s: Seq<u32>, k: int)
    requires
        0 <= k <= s.len(),
    ensures
        sum_counts(s.take(k)) <= sum_counts(s),
    decreases s.len(),
{
    if k < s.len() {
        assert(s.drop_last().take(k) =~= s.take(k));
        lemma_sum_counts_prefix(s.drop_last(), k);
    } else {
        assert(s.take(k) =~= s);
    }
}

/// The total of `counts`, where it is at most `cap`.
fn total_within(counts: &Vec<u32>, cap: u64) -> (r: Option<u64>)
    ensures
        r is Some <==> sum_counts(counts@) <= cap,
        r is Some ==> r->0 == sum_counts(counts@),
{
    let n = counts.len();
    let mut acc: u128 = 0;
    let mut i: usize = 0;
    assert(counts@.take(0) =~= seq![]);
    while i < n
        invariant
            n == counts@.len(),
            i <= n,
            acc == sum_counts(counts@.take(i as int)),
            acc <= cap,
        decreases n - i,
    {
        assert(counts@.take(i + 1).drop_last() =~= counts@.take(i as int));
        acc = acc + counts[i] as u128;
        i = i + 1;
        if acc > cap as u128 {
            proof {
                lemma_sum_counts_prefix(counts@, i as int);
            }
            return None;
        }
    }
    assert(counts@.take(n as int) =~= counts@);
    Some(acc as u64)
}

/// Reads the samples of each channel from `b`, starting at byte `start`: `total`
/// samples each where it is given, else as many as `g` gives the channel.
/// Returns the channels and the position after them, or `None` where `b` is too short.
fn read_channels(b: &Vec<u8>, start: usize, chans: &Vec<Channel>, g: &BlockGeometry, total: Option<u64>)
    -> (r: Option<(Vec<PixelData>, usize)>)
    requires
        start <= b@.len(),
        channels_wf(chans@),
    ensures
        r is Some <==> b@.len() - start >= layout_len(channel_types(chans@), counts_for(chans@, *g, total)),
        r is Some ==> samples_of(r.unwrap().0) == parse_channels(
            b@.skip(start as int),
            channel_types(chans@),
            counts_for(chans@, *g, total),
        ),
        r is Some ==> r.unwrap().1 == start + layout_len(channel_types(chans@), counts_for(chans@, *g, total)),
{
    let ghost types = channel_types(chans@);
    let ghost counts = counts_for(chans@, *g, total);
    let n = chans.len();
    let len = b.len();
    let mut out: Vec<PixelData> = Vec::new();
    let mut pos: usize = start;
    let mut i: usize = 0;
    assert(types.skip(0) =~= types);
    assert(counts.skip(0) =~= counts);
    assert(samples_of(out) =~= seq![]);
    while i < n
        invariant
            n == chans@.len(),
            len == b@.len(),
            types == channel_types(chans@),
            counts == counts_for(chans@, *g, total),
            channels_wf(chans@),
            i <= n,
            start <= pos <= len,
            samples_of(out) + parse_channels(b@.skip(pos as int), types.skip(i as int), counts.skip(i as int))
                == parse_channels(b@.skip(start as int), types, counts),
            (pos - start) + layout_len(types.skip(i as int), counts.skip(i as int)) == layout_len(types, counts),
        decreases n - i,
    {
        let ch = &chans[i];
        let count: u64 = match total {
            Some(t) => t,
            None => g.sample_count(ch),
        };
        let ghost t = b@.skip(pos as int);
        let ghost ts = types.skip(i as int);
        let ghost cs = counts.skip(i as int);
        assert(ts[0] == ch.pixel_type);
        assert(cs[0] == count);
        assert(ts.skip(1) =~= types.skip(i + 1));
        assert(cs.skip(1) =~= counts.skip(i + 1));
        let bps = ch.pixel_type.bytes_per_sample();
        assert(byte_len(ts[0], cs[0]) == bps * count);
        if count > ((len - pos) / bps) as u64 {
            assert(bps * count > len - pos) by (nonlinear_arith)
                requires
                    count > (len - pos) as int / bps as int,
                    bps > 0,
            ;
            assert(layout_len(ts, cs) >= byte_len(ts[0], cs[0]));
            return None;
        }
        assert(bps * count <= len - pos) by (nonlinear_arith)
            requires
                count <= (len - pos) as int / bps as int,
                bps > 0,
        ;
        let k = count as usize;
        let samples = match ch.pixel_type {
            PixelType::U32 => PixelData::U32(read_u32s_at(b, pos, k)),
            PixelType::F16 => PixelData::F16(read_u16s_at(b, pos, k)),
            PixelType::F32 => PixelData::F32(read_u32s_at(b, pos, k)),
        };
        let ghost bl = byte_len(ts[0], cs[0]);
        assert(samples@ == read_samples(t, ts[0], cs[0]));
        assert(t.skip(bl as int) =~= b@.skip(pos + bl));
        let ghost before = out;
        out.push(samples);
        assert(samples_of(out) =~= samples_of(before).push(samples@));
        assert(samples_of(out) + parse_channels(b@.skip(pos + bl), types.skip(i + 1), counts.skip(i + 1))
            =~= samples_of(before) + parse_channels(t, ts, cs));
        pos = pos + bps * k;
        i = i + 1;
    }
    assert(samples_of(out) + parse_channels(b@.skip(pos as int), types.skip(n as int), counts.skip(n as int))
        =~= samples_of(out));
    Some((out, pos))
}

/// The section of `kind` that holds `channels`.
fn section_of(kind: BlockKind, sample_counts: Vec<u32>, channels: Vec<PixelData>) -> (r: DataSection)
    ensures
        r@ == (SectionModel {
            kind,
            sample_counts: if kind.spec_is_deep() {
                sample_counts@
            } else {
                seq![]
            },
            channels: samples_of(channels),
        }),
{
    match kind {
        BlockKind::ScanLine => DataSection::ScanLine(ScanLineBlock { per_channel_data: channels }),
        BlockKind::Tile => DataSection::Tile(TileBlock { per_channel_data: channels }),
        BlockKind::DeepScanLine => DataSection::DeepScanLine(
            DeepScanLineBlock { sample_counts, per_channel_data: channels },
        ),
        BlockKind::DeepTile => DataSection::DeepTile(
            DeepTileBlock { sample_counts, per_channel_data: channels },
        ),
    }
}

/// Reads a block of `kind` from the start of `b`, and says how many bytes it took.
pub(crate) fn unpack_counted(kind: BlockKind, b: &Vec<u8>, chans: &Vec<Channel>, g: &BlockGeometry)
    -> (r: Result<(DataSection, usize), CompressionError>)
    requires
        channels_wf(chans@),
    ensures
        r is Ok <==> unpack_fits(kind, b@, chans@, *g),
        r is Ok ==> r.unwrap().0@ == unpacked(kind, b@, chans@, *g),
        r is Ok ==> r.unwrap().1 == unpacked_len(kind, b@, chans@, *g),
        r is Err ==> r->Err_0 == CompressionError::TruncatedInput,
{
    let ghost types = channel_types(chans@);
    let len = b.len();
    assert(b@.skip(0) =~= b@);
    if !kind.is_deep() {
        match read_channels(b, 0, chans, g, None) {
            Some((v, end)) => Ok((section_of(kind, Vec::new(), v), end)),
            None => Err(CompressionError::TruncatedInput),
        }
    } else {
        let p = g.pixel_count();
        if p > (len / 4) as u64 {
            return Err(CompressionError::TruncatedInput);
        }
        let h = 4 * (p as usize);
        let counts = read_u32s_at(b, 0, p as usize);
        let ghost dc = deep_counts(chans@, sum_counts(counts@));
        let total = if chans.len() == 0 {
            assert(deep_counts(chans@, 0) =~= dc);
            Some(0u64)
        } else {
            let t = total_within(&counts, (len - h) as u64);
            if t.is_none() {
                assert(layout_len(types, dc) >= byte_len(types[0], dc[0]));
                return Err(CompressionError::TruncatedInput);
            }
            t
        };
        match read_channels(b, h, chans, g, total) {
            Some((v, end)) => Ok((section_of(kind, counts, v), end)),
            None => Err(CompressionError::TruncatedInput),
        }
    }
}

/// Reads a block of `block_kind` from `data`: for a deep block first one sample
/// count per pixel, then for each channel in order as many samples as the
/// geometry gives it. Bytes after the block are left unread.
pub fn unpack(block_kind: BlockKind, data: Vec<u8>, channels: &Vec<Channel>, geometry: &BlockGeometry)
    -> (r: Result<DataSection, CompressionError>)
    requires
        channels_wf(channels@),
    ensures
        r is Ok <==> unpack_fits(block_kind, data@, channels@, *geometry),
        r is Ok ==> r->Ok_0@ == unpacked(block_kind, data@, channels@, *geometry),
        r is Err ==> r->Err_0 == CompressionError::TruncatedInput,
{
    match unpack_counted(block_kind, &data, channels, geometry) {
        Ok((section, _)) => Ok(section),
        Err(e) => Err(e),
    }
}

proof fn lemma_parse_round_trip(cs: Seq<Samples>, types: Seq<PixelType>, counts: Seq<nat>, rest: Seq<u8>)
    requires
        cs.len() == types.len(),
        counts.len() == types.len(),
        forall|i: int| 0 <= i < cs.len() ==> (#[trigger] cs[i]).pixel_type() == types[i] && cs[i].len() == counts[i],
    ensures
        parse_channels(channels_bytes(cs) + rest, types, counts) == cs,
        layout_len(types, counts) == channels_bytes(cs).len(),
    decreases cs.len(),
{
    if cs.len() == 0 {
        assert(parse_channels(channels_bytes(cs) + rest, types, counts) =~= cs);
    } else {
        let tail = channels_bytes(cs.skip(1)) + rest;
        let b = channels_bytes(cs) + rest;
        assert(b =~= cs[0].bytes() + tail);
        match cs[0] {
            Samples::U32(v) => {
                lemma_u32s_le_len(v);
                lemma_u32s_round_trip(v, tail);
            },
            Samples::F16(v) => {
                lemma_u16s_le_len(v);
                lemma_u16s_round_trip(v, tail);
            },
            Samples::F32(v) => {
                lemma_u32s_le_len(v);
                lemma_u32s_round_trip(v, tail);
            },
        }
        let bl = byte_len(types[0], counts[0]);
        assert(bl == cs[0].bytes().len());
        assert(b.skip(bl as int) =~= tail);
        assert(read_samples(b, types[0], counts[0]) == cs[0]);
        lemma_parse_round_trip(cs.skip(1), types.skip(1), counts.skip(1), rest);
        assert(parse_channels(b, types, counts) =~= cs);
    }
}

/// Unpacking the bytes of a block, with the channels and geometry it was made
/// for, gives the block back and takes all of its bytes.
pub proof fn lemma_unpack_pack(m: SectionModel, kind: BlockKind, chans: Seq<Channel>, g: BlockGeometry)
    requires
        section_fits(m, kind, chans, g),
    ensures
        unpack_fits(kind, packed_bytes(m), chans, g),
        unpacked(kind, packed_bytes(m), chans, g) == m,
        unpacked_len(kind, packed_bytes(m), chans, g) == packed_bytes(m).len(),
{
    let b = packed_bytes(m);
    let types = channel_types(chans);
    let body = channels_bytes(m.channels);
    if kind.spec_is_deep() {
        lemma_u32s_le_len(m.sample_counts);
        lemma_u32s_round_trip(m.sample_counts, body);
        assert(leading_counts(b, g) == m.sample_counts);
        assert(b.skip(header_len(kind, g) as int) =~= body + seq![]);
    } else {
        assert(b.skip(header_len(kind, g) as int) =~= body + seq![]);
        assert(m.sample_counts =~= seq![]);
    }
    let counts = channel_counts(kind, b, chans, g);
    lemma_parse_round_trip(m.channels, types, counts, seq![]);
    assert(unpacked(kind, b, chans, g).channels == m.channels);
}

/// What decoding the uncompressed bytes `b` of a block gives: `TruncatedInput`
/// where `b` is too short, `SizeMismatch` where a declared size differs from
/// the number of bytes the block takes, else the block.
pub open spec fn block_outcome(
    kind: BlockKind,
    b: Seq<u8>,
    expected: Option<usize>,
    chans: Seq<Channel>,
    g: BlockGeometry,
) -> Result<SectionModel, CompressionError> {
    if !unpack_fits(kind, b, chans, g) {
        Err(CompressionError::TruncatedInput)
    } else if expected is Some && expected->0 != unpacked_len(kind, b, chans, g) {
        Err(CompressionError::SizeMismatch(expected->0, unpacked_len(kind, b, chans, g) as usize))
    } else {
        Ok(unpacked(kind, b, chans, g))
    }
}

/// The model of a decoding's outcome.
pub open spec fn outcome_view(r: Result<DataSection, CompressionError>) -> Result<SectionModel, CompressionError> {
    match r {
        Ok(d) => Ok(d@),
        Err(e) => Err(e),
    }
}

/// Unpacks a block and checks the number of bytes it took against `expected`.
pub fn unpack_sized(
    kind: BlockKind,
    b: &Vec<u8>,
    expected: Option<usize>,
    chans: &Vec<Channel>,
    g: &BlockGeometry,
) -> (r: Result<DataSection, CompressionError>)
    requires
        channels_wf(chans@),
    ensures
        outcome_view(r) == block_outcome(kind, b@, expected, chans@, *g),
{
    match unpack_counted(kind, b, chans, g) {
        Err(e) => Err(e),
        Ok((section, used)) => match expected {
            Some(e) => if e != used {
                Err(CompressionError::SizeMismatch(e, used))
            } else {
                Ok(section)
            },
            None => Ok(section),
        },
    }
}

/// The offset of each pixel's samples within a deep block's channel buffers:
/// the sum of the sample counts of all pixels before it.
pub fn deep_offsets(counts: &Vec<u32>) -> (r: Vec<u64>)
    requires
        sum_counts(counts@) <= u64::MAX,
    ensures
        r@.len() == counts@.len(),
        forall|i: int| 0 <= i < counts@.len() ==> #[trigger] r@[i] == sum_counts(counts@.take(i)),
{
    let n = counts.len();
    let mut r: Vec<u64> = Vec::new();
    let mut acc: u64 = 0;
    let mut i: usize = 0;
    assert(counts@.take(0) =~= seq![]);
    while i < n
        invariant
            n == counts@.len(),
            i <= n,
            sum_counts(counts@) <= u64::MAX,
            acc == sum_counts(counts@.take(i as int)),
            r@.len() == i,
            forall|j: int| 0 <= j < i ==> #[trigger] r@[j] == sum_counts(counts@.take(j)),
        decreases n - i,
    {
        r.push(acc);
        assert(counts@.take(i + 1).drop_last() =~= counts@.take(i as int));
        proof {
            lemma_sum_counts_prefix(counts@, i + 1);
        }
        acc = acc + counts[i] as u64;
        i = i + 1;
    }
    r
}

} // verus!
