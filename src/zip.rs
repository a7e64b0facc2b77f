//! ZIP and ZIPS: the packed block, delta filtered, in a zlib stream.
use vstd::prelude::*;

use std::io::{Read, Write};

use crate::delta::{decode_delta, delta_decoded, delta_encoded, encode_delta};
use crate::error::CompressionError;
use crate::geometry::{channels_wf, BlockGeometry, Channel};
use crate::storage::{packed_bytes, BlockKind, DataSection};
use crate::uncompressed::{block_outcome, outcome_view, pack, unpack_sized};

verus! {

/// The zlib stream that libflate's encoder makes of `data` with its default options.
pub uninterp spec fn zlib_encoded(data: Seq<u8>) -> Seq<u8>;

/// The bytes that libflate's decoder reads out of the zlib stream `data`, or
/// `None` where it rejects the stream.
pub uninterp spec fn zlib_decoded(data: Seq<u8>) -> Option<Seq<u8>>;

/// Relies on `libflate::zlib::Encoder` (`new`, `write_all`, `finish`): with the
/// default options the stream it writes depends on the input bytes alone, and
/// writing into a `Vec` never fails (its errors come only from the inner writer).
#[verifier::external_body]
fn zlib_encode(data: &Vec<u8>) -> (r: Result<Vec<u8>, String>)
    ensures
        r is Ok,
        r->Ok_0@ == zlib_encoded(data@),
{
    let mut encoder = match libflate::zlib::Encoder::new(Vec::new()) {
        Ok(encoder) => encoder,
        Err(e) => return Err(e.to_string()),
    };
    if let Err(e) = encoder.write_all(data) {
        return Err(e.to_string());
    }
    encoder.finish().into_result().map_err(|e| e.to_string())
}

/// Relies on `libflate::zlib::Decoder` (`new`, `read_to_end`): whether it
/// accepts a stream, and what it reads, depend on the stream alone, and a
/// stream that the encoder made of some bytes is read back as those bytes.
#[verifier::external_body]
fn zlib_decode(data: &Vec<u8>) -> (r: Result<Vec<u8>, String>)
    ensures
        r is Ok <==> zlib_decoded(data@) is Some,
        r is Ok ==> r->Ok_0@ == zlib_decoded(data@)->0,
        forall|x: Seq<u8>| data@ == zlib_encoded(x) ==> (r is Ok && r->Ok_0@ == x),
{
    let mut decoder = match libflate::zlib::Decoder::new(data.as_slice()) {
        Ok(decoder) => decoder,
        Err(e) => return Err(e.to_string()),
    };
    let mut out = Vec::new();
    match decoder.read_to_end(&mut out) {
        Ok(_) => Ok(out),
        Err(e) => Err(e.to_string()),
    }
}

/// Packs the block, replaces each byte by its difference from the one before,
/// and deflates the result into a zlib stream.
pub fn compress(data: DataSection) -> (r: Result<Vec<u8>, CompressionError>)
    ensures
        r is Ok,
        r->Ok_0@ == zlib_encoded(delta_encoded(packed_bytes(data@))),
{
    let packed = match pack(data) {
        Ok(p) => p,
        Err(e) => return Err(e),
    };
    let filtered = encode_delta(&packed);
    match zlib_encode(&filtered) {
        Ok(c) => Ok(c),
        Err(msg) => Err(CompressionError::EncodeFailure(msg)),
    }
}

/// Undoes the delta filter on inflated bytes and unpacks the block they hold.
pub fn decompress_inflated(
    inflated: Vec<u8>,
    uncompressed_size: Option<usize>,
    block_kind: BlockKind,
    channels: &Vec<Channel>,
    geometry: &BlockGeometry,
) -> (r: Result<DataSection, CompressionError>)
    requires
        channels_wf(channels@),
    ensures
        outcome_view(r) == block_outcome(
            block_kind,
            delta_decoded(inflated@),
            uncompressed_size,
            channels@,
            *geometry,
        ),
{
    let raw = decode_delta(&inflated);
    unpack_sized(block_kind, &raw, uncompressed_size, channels, geometry)
}

/// Inflates a zlib stream, undoes the delta filter and unpacks the block.
/// A stream that zlib rejects gives `DecodeFailure`.
pub fn decompress(
    data: Vec<u8>,
    uncompressed_size: Option<usize>,
    block_kind: BlockKind,
    channels: &Vec<Channel>,
    geometry: &BlockGeometry,
) -> (r: Result<DataSection, CompressionError>)
    requires
        channels_wf(channels@),
    ensures
        zlib_decoded(data@) is None <==> (r is Err && r->Err_0 is DecodeFailure),
        zlib_decoded(data@) is Some ==> outcome_view(r) == block_outcome(
            block_kind,
            delta_decoded(zlib_decoded(data@)->0),
            uncompressed_size,
            channels@,
            *geometry,
        ),
        forall|x: Seq<u8>|
            data@ == zlib_encoded(x) ==> outcome_view(r) == block_outcome(
                block_kind,
                delta_decoded(x),
                uncompressed_size,
                channels@,
                *geometry,
            ),
{
    match zlib_decode(&data) {
        Ok(inflated) => decompress_inflated(inflated, uncompressed_size, block_kind, channels, geometry),
        Err(msg) => Err(CompressionError::DecodeFailure(msg)),
    }
}

} // verus!
