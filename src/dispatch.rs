//! Routes a compression method to its codec.
use vstd::prelude::*;

use crate::delta::{delta_decoded, delta_encoded, lemma_delta_round_trip};
use crate::error::CompressionError;
use crate::geometry::{channels_wf, BlockGeometry, Channel};
use crate::method::Compression;
use crate::storage::{packed_bytes, BlockKind, DataSection, SectionModel};
use crate::uncompressed::{block_outcome, lemma_unpack_pack, outcome_view, section_fits, unpack_sized};
use crate::zip::{zlib_decoded, zlib_encoded};

verus! {

/// The bytes a method hands to its stream format: the packed block, delta
/// filtered for the zlib methods.
pub open spec fn payload(method: Compression, m: SectionModel) -> Seq<u8> {
    if method == Compression::Uncompressed {
        packed_bytes(m)
    } else {
        delta_encoded(packed_bytes(m))
    }
}

/// The stored form of a payload: as it is, or as a zlib stream.
pub open spec fn framed(method: Compression, x: Seq<u8>) -> Seq<u8> {
    if method == Compression::Uncompressed {
        x
    } else {
        zlib_encoded(x)
    }
}

/// What decoding a payload gives.
pub open spec fn payload_outcome(
    method: Compression,
    kind: BlockKind,
    x: Seq<u8>,
    expected: Option<usize>,
    chans: Seq<Channel>,
    g: BlockGeometry,
) -> Result<SectionModel, CompressionError> {
    if method == Compression::Uncompressed {
        block_outcome(kind, x, expected, chans, g)
    } else {
        block_outcome(kind, delta_decoded(x), expected, chans, g)
    }
}

/// Compresses a block with `method`. Methods without a codec here, and deep
/// blocks with a method that cannot hold deep data, give `Unsupported`.
pub fn compress(method: Compression, data: DataSection) -> (r: Result<Vec<u8>, CompressionError>)
    ensures
        !method.spec_is_implemented() ==> r == Err::<Vec<u8>, CompressionError>(
            CompressionError::Unsupported(method),
        ),
        data@.kind.spec_is_deep() && !method.spec_supports_deep_data() ==> r == Err::<
            Vec<u8>,
            CompressionError,
        >(CompressionError::Unsupported(method)),
        method.spec_is_implemented() ==> r is Ok,
        method.spec_is_implemented() ==> r->Ok_0@ == framed(method, payload(method, data@)),
{
    if data.kind().is_deep() && !method.supports_deep_data() {
        return Err(CompressionError::Unsupported(method));
    }
    match method {
        Compression::Uncompressed => crate::uncompressed::pack(data),
        Compression::ZIP | Compression::ZIPS => crate::zip::compress(data),
        _ => Err(CompressionError::Unsupported(method)),
    }
}

/// Decompresses a block of `block_kind` stored with `method`. Where
/// `uncompressed_size` is given it must equal the number of bytes the block
/// takes uncompressed, else the result is `SizeMismatch`.
pub fn decompress(
    method: Compression,
    block_kind: BlockKind,
    data: Vec<u8>,
    uncompressed_size: Option<usize>,
    channels: &Vec<Channel>,
    geometry: &BlockGeometry,
) -> (r: Result<DataSection, CompressionError>)
    requires
        channels_wf(channels@),
    ensures
        !method.spec_is_implemented() ==> r == Err::<DataSection, CompressionError>(
            CompressionError::Unsupported(method),
        ),
        block_kind.spec_is_deep() && !method.spec_supports_deep_data() ==> r == Err::<
            DataSection,
            CompressionError,
        >(CompressionError::Unsupported(method)),
        method == Compression::Uncompressed ==> outcome_view(r) == block_outcome(
            block_kind,
            data@,
            uncompressed_size,
            channels@,
            *geometry,
        ),
        method == Compression::ZIP || method == Compression::ZIPS ==> (zlib_decoded(data@) is None <==> (
        r is Err && r->Err_0 is DecodeFailure)),
        method == Compression::ZIP || method == Compression::ZIPS ==> (zlib_decoded(data@) is Some
            ==> outcome_view(r) == block_outcome(
            block_kind,
            delta_decoded(zlib_decoded(data@)->0),
            uncompressed_size,
            channels@,
            *geometry,
        )),
        method.spec_is_implemented() ==> forall|x: Seq<u8>|
            data@ == framed(method, x) ==> outcome_view(r) == payload_outcome(
                method,
                block_kind,
                x,
                uncompressed_size,
                channels@,
                *geometry,
            ),
{
    if block_kind.is_deep() && !method.supports_deep_data() {
        return Err(CompressionError::Unsupported(method));
    }
    match method {
        Compression::Uncompressed => unpack_sized(block_kind, &data, uncompressed_size, channels, geometry),
        Compression::ZIP | Compression::ZIPS => crate::zip::decompress(
            data,
            uncompressed_size,
            block_kind,
            channels,
            geometry,
        ),
        _ => Err(CompressionError::Unsupported(method)),
    }
}

/// Lossless round trip: for a method with a codec here and a block that fits
/// its channels and geometry, decoding the payload that compressing the block
/// frames gives the block back, with no declared size or with the block's
/// uncompressed size declared. With the contracts of `compress` (which returns
/// `framed(method, payload(method, m))`) and `decompress` (which decodes any
/// `framed(method, x)` to `payload_outcome(method, .., x, ..)`), decompressing
/// what `compress` returned yields the block unchanged.
pub proof fn lemma_round_trip(
    method: Compression,
    m: SectionModel,
    expected: Option<usize>,
    chans: Seq<Channel>,
    g: BlockGeometry,
)
    requires
        method.spec_is_implemented(),
        section_fits(m, m.kind, chans, g),
        expected is Some ==> expected->0 == packed_bytes(m).len(),
    ensures
        payload_outcome(method, m.kind, payload(method, m), expected, chans, g) == Ok::<
            SectionModel,
            CompressionError,
        >(m),
{
    lemma_unpack_pack(m, m.kind, chans, g);
    lemma_delta_round_trip(packed_bytes(m));
}

} // verus!
