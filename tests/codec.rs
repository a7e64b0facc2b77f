use exr_compress::delta::{decode_delta, encode_delta};
use exr_compress::geometry::{BlockGeometry, Channel};
use exr_compress::pixel::{push_u16s, push_u32s, read_u16s_at, read_u32s_at, PixelType};
use exr_compress::storage::{
    BlockKind, DataSection, DeepScanLineBlock, DeepTileBlock, PixelData, ScanLineBlock, TileBlock,
};
use exr_compress::uncompressed::{deep_offsets, pack, unpack};
use exr_compress::{compress, decompress, Compression, CompressionError};

fn channel(name: &str, pixel_type: PixelType, x_sampling: u32, y_sampling: u32) -> Channel {
    Channel { name: name.to_string(), pixel_type, x_sampling, y_sampling }
}

fn block(width: u32, height: u32) -> BlockGeometry {
    BlockGeometry {
        image_width: width,
        image_height: height,
        level_x: 0,
        level_y: 0,
        origin_x: 0,
        origin_y: 0,
        nominal_width: width,
        nominal_height: height,
    }
}

fn three_channels() -> Vec<Channel> {
    vec![
        channel("A", PixelType::F16, 1, 1),
        channel("B", PixelType::F32, 1, 1),
        channel("id", PixelType::U32, 1, 1),
    ]
}

fn three_channel_block() -> DataSection {
    DataSection::ScanLine(ScanLineBlock {
        per_channel_data: vec![
            PixelData::F16(vec![0x3c00, 0x0000, 0xbc00, 0x7bff, 0x0001, 0x8000]),
            PixelData::F32(vec![0x3f80_0000, 0, 0xbf80_0000, 0x7f7f_ffff, 1, 0x8000_0000]),
            PixelData::U32(vec![0, 1, 2, 0xffff_ffff, 77, 1 << 31]),
        ],
    })
}

const ALL_METHODS: [Compression; 8] = [
    Compression::Uncompressed,
    Compression::RLE,
    Compression::ZIPS,
    Compression::ZIP,
    Compression::PIZ,
    Compression::PXR24,
    Compression::B44,
    Compression::B44A,
];

#[test]
fn scan_lines_per_block_table() {
    let expected = [1, 1, 1, 16, 32, 16, 32, 32];
    for (m, e) in ALL_METHODS.iter().zip(expected.iter()) {
        assert_eq!(m.scan_lines_per_block(), *e, "{:?}", m);
    }
}

#[test]
fn supports_deep_data_table() {
    let expected = [true, true, true, true, false, false, false, false];
    for (m, e) in ALL_METHODS.iter().zip(expected.iter()) {
        assert_eq!(m.supports_deep_data(), *e, "{:?}", m);
    }
}

#[test]
fn subsampled_channel_sample_count() {
    let g = block(4, 4);
    assert_eq!(g.sample_count(&channel("Y", PixelType::F16, 2, 2)), 4);
    assert_eq!(g.sample_count(&channel("Y", PixelType::F16, 1, 1)), 16);
    assert_eq!(block(5, 3).sample_count(&channel("C", PixelType::F16, 2, 2)), 6);
}

#[test]
fn edge_tile_is_clipped() {
    let g = BlockGeometry {
        image_width: 74,
        image_height: 84,
        level_x: 0,
        level_y: 0,
        origin_x: 64,
        origin_y: 64,
        nominal_width: 64,
        nominal_height: 64,
    };
    assert_eq!(g.width(), 10);
    assert_eq!(g.height(), 20);
    let chans = vec![channel("R", PixelType::F16, 1, 1)];
    let section = unpack(BlockKind::Tile, vec![0u8; 64 * 64 * 2], &chans, &g).unwrap();
    match section {
        DataSection::Tile(t) => match &t.per_channel_data[0] {
            PixelData::F16(v) => assert_eq!(v.len(), 10 * 20),
            other => panic!("unexpected {:?}", other),
        },
        other => panic!("unexpected {:?}", other),
    }
}

#[test]
fn resolution_levels_halve_the_image() {
    let mut g = block(64, 64);
    g.image_width = 100;
    g.image_height = 7;
    g.nominal_width = 100;
    g.level_x = 1;
    g.level_y = 2;
    assert_eq!(g.width(), 50);
    assert_eq!(g.height(), 1);
    g.level_x = 40;
    assert_eq!(g.width(), 1);
    g.origin_y = 1;
    assert_eq!(g.height(), 0);
    assert_eq!(g.pixel_count(), 0);
}

#[test]
fn uncompressed_float16_zero_block() {
    let chans = vec![channel("A", PixelType::F16, 1, 1)];
    let data = DataSection::ScanLine(ScanLineBlock { per_channel_data: vec![PixelData::F16(vec![0; 4])] });
    let bytes = compress(Compression::Uncompressed, data.clone()).unwrap();
    assert_eq!(bytes, vec![0u8; 8]);
    let back = decompress(Compression::Uncompressed, BlockKind::ScanLine, bytes, None, &chans, &block(2, 2));
    assert_eq!(back, Ok(data));
}

#[test]
fn zips_float16_zero_block_round_trip() {
    let chans = vec![channel("A", PixelType::F16, 1, 1)];
    let data = DataSection::ScanLine(ScanLineBlock { per_channel_data: vec![PixelData::F16(vec![0; 4])] });
    let bytes = compress(Compression::ZIPS, data.clone()).unwrap();
    let back = decompress(Compression::ZIPS, BlockKind::ScanLine, bytes, Some(8), &chans, &block(2, 2));
    assert_eq!(back, Ok(data));
}

#[test]
fn lossless_methods_round_trip_all_pixel_types() {
    let chans = three_channels();
    let g = block(3, 2);
    for m in [Compression::Uncompressed, Compression::ZIP, Compression::ZIPS] {
        let data = three_channel_block();
        let bytes = compress(m, data.clone()).unwrap();
        let back = decompress(m, BlockKind::ScanLine, bytes, Some(6 * 10), &chans, &g);
        assert_eq!(back, Ok(data), "{:?}", m);
    }
}

#[test]
fn deep_blocks_round_trip() {
    let chans = vec![channel("Z", PixelType::F32, 1, 1), channel("A", PixelType::F16, 1, 1)];
    let g = block(2, 2);
    let data = DataSection::DeepTile(DeepTileBlock {
        sample_counts: vec![0, 2, 1, 0],
        per_channel_data: vec![PixelData::F32(vec![10, 20, 30]), PixelData::F16(vec![1, 2, 3])],
    });
    for m in [Compression::Uncompressed, Compression::ZIP, Compression::ZIPS] {
        let bytes = compress(m, data.clone()).unwrap();
        let back = decompress(m, BlockKind::DeepTile, bytes, Some(16 + 12 + 6), &chans, &g);
        assert_eq!(back, Ok(data.clone()), "{:?}", m);
    }
}

#[test]
fn packed_layout_is_little_endian_in_channel_order() {
    let data = DataSection::DeepScanLine(DeepScanLineBlock {
        sample_counts: vec![1, 0],
        per_channel_data: vec![PixelData::F16(vec![0x1234]), PixelData::U32(vec![0x0a0b_0c0d])],
    });
    assert_eq!(
        pack(data).unwrap(),
        vec![1, 0, 0, 0, 0, 0, 0, 0, 0x34, 0x12, 0x0d, 0x0c, 0x0b, 0x0a]
    );
    let tile = DataSection::Tile(TileBlock { per_channel_data: vec![] });
    assert_eq!(pack(tile).unwrap(), Vec::<u8>::new());
}

#[test]
fn unsupported_methods_are_reported() {
    let chans = vec![channel("A", PixelType::F16, 1, 1)];
    for m in [Compression::RLE, Compression::PIZ, Compression::PXR24, Compression::B44, Compression::B44A] {
        let data = DataSection::ScanLine(ScanLineBlock { per_channel_data: vec![PixelData::F16(vec![0; 4])] });
        assert_eq!(compress(m, data), Err(CompressionError::Unsupported(m)));
        let back = decompress(m, BlockKind::ScanLine, vec![0; 8], None, &chans, &block(2, 2));
        assert_eq!(back, Err(CompressionError::Unsupported(m)));
    }
}

#[test]
fn deep_data_rejected_by_methods_without_deep_support() {
    let chans = vec![channel("A", PixelType::F16, 1, 1)];
    for m in [Compression::PIZ, Compression::PXR24, Compression::B44, Compression::B44A] {
        for kind in [BlockKind::DeepScanLine, BlockKind::DeepTile] {
            let back = decompress(m, kind, vec![0; 64], None, &chans, &block(2, 2));
            assert_eq!(back, Err(CompressionError::Unsupported(m)));
        }
        let data = DataSection::DeepScanLine(DeepScanLineBlock {
            sample_counts: vec![0; 4],
            per_channel_data: vec![PixelData::F16(vec![])],
        });
        assert_eq!(compress(m, data), Err(CompressionError::Unsupported(m)));
    }
}

#[test]
fn short_input_is_truncated() {
    let chans = three_channels();
    let back = decompress(Compression::Uncompressed, BlockKind::ScanLine, vec![0; 59], None, &chans, &block(3, 2));
    assert_eq!(back, Err(CompressionError::TruncatedInput));
    let deep = vec![channel("A", PixelType::F16, 1, 1)];
    let mut bytes = vec![0u8; 16];
    bytes[0] = 5;
    bytes.extend_from_slice(&[0; 9]);
    let back = decompress(Compression::Uncompressed, BlockKind::DeepScanLine, bytes, None, &deep, &block(2, 2));
    assert_eq!(back, Err(CompressionError::TruncatedInput));
    let back = decompress(Compression::Uncompressed, BlockKind::DeepScanLine, vec![0; 15], None, &deep, &block(2, 2));
    assert_eq!(back, Err(CompressionError::TruncatedInput));
}

#[test]
fn trailing_bytes_are_left_unread() {
    let chans = vec![channel("A", PixelType::F16, 1, 1)];
    let back = unpack(BlockKind::ScanLine, vec![1, 0, 2, 0, 9, 9, 9], &chans, &block(2, 1)).unwrap();
    assert_eq!(back, DataSection::ScanLine(ScanLineBlock { per_channel_data: vec![PixelData::F16(vec![1, 2])] }));
}

#[test]
fn declared_size_must_match() {
    let chans = vec![channel("A", PixelType::F16, 1, 1)];
    let back = decompress(Compression::Uncompressed, BlockKind::ScanLine, vec![0; 10], Some(10), &chans, &block(2, 2));
    assert_eq!(back, Err(CompressionError::SizeMismatch(10, 8)));
    let data = DataSection::ScanLine(ScanLineBlock { per_channel_data: vec![PixelData::F16(vec![0; 4])] });
    let bytes = compress(Compression::ZIP, data).unwrap();
    let back = decompress(Compression::ZIP, BlockKind::ScanLine, bytes, Some(7), &chans, &block(2, 2));
    assert_eq!(back, Err(CompressionError::SizeMismatch(7, 8)));
}

#[test]
fn corrupt_zlib_stream_is_a_decode_failure() {
    let chans = vec![channel("A", PixelType::F16, 1, 1)];
    let back = decompress(Compression::ZIP, BlockKind::ScanLine, vec![1, 2, 3, 4, 5], None, &chans, &block(2, 2));
    assert!(matches!(back, Err(CompressionError::DecodeFailure(_))), "{:?}", back);
}

#[test]
fn zip_output_is_a_zlib_stream_of_the_filtered_bytes() {
    let data = DataSection::ScanLine(ScanLineBlock { per_channel_data: vec![PixelData::U32(vec![7, 7, 7, 7])] });
    let bytes = compress(Compression::ZIP, data).unwrap();
    assert_ne!(bytes, vec![7, 0, 0, 0, 7, 0, 0, 0, 7, 0, 0, 0, 7, 0, 0, 0]);
    assert_eq!(bytes[0], 0x78);
    let chans = vec![channel("N", PixelType::U32, 1, 1)];
    let inflated = exr_compress::zip::decompress_inflated(
        vec![7, 249, 0, 0, 7, 249, 0, 0, 7, 249, 0, 0, 7, 249, 0, 0],
        None,
        BlockKind::ScanLine,
        &chans,
        &block(4, 1),
    );
    assert_eq!(
        inflated,
        Ok(DataSection::ScanLine(ScanLineBlock { per_channel_data: vec![PixelData::U32(vec![7, 7, 7, 7])] }))
    );
}

#[test]
fn delta_filter_values() {
    let s = vec![10u8, 12, 5, 255, 0];
    let d = encode_delta(&s);
    assert_eq!(d, vec![10, 2, 249, 250, 1]);
    assert_eq!(decode_delta(&d), s);
    assert_eq!(encode_delta(&vec![]), Vec::<u8>::new());
}

#[test]
fn little_endian_helpers() {
    let mut out = Vec::new();
    push_u16s(&mut out, &vec![0xabcd, 1]);
    push_u32s(&mut out, &vec![0x0102_0304]);
    assert_eq!(out, vec![0xcd, 0xab, 1, 0, 4, 3, 2, 1]);
    assert_eq!(read_u16s_at(&out, 0, 2), vec![0xabcd, 1]);
    assert_eq!(read_u32s_at(&out, 4, 1), vec![0x0102_0304]);
    assert_eq!(PixelType::F16.bytes_per_sample(), 2);
    assert_eq!(PixelType::F32.bytes_per_sample(), 4);
}

#[test]
fn deep_offsets_are_exclusive_prefix_sums() {
    assert_eq!(deep_offsets(&vec![0, 2, 1, 0, 3]), vec![0, 0, 2, 3, 3]);
    assert_eq!(deep_offsets(&vec![]), Vec::<u64>::new());
    assert_eq!(deep_offsets(&vec![u32::MAX, 1]), vec![0, u32::MAX as u64]);
}

#[test]
fn zip_and_zips_compress_equal_blocks_alike() {
    let a = compress(Compression::ZIP, three_channel_block()).unwrap();
    let b = compress(Compression::ZIPS, three_channel_block()).unwrap();
    assert_eq!(a, b);
    assert_eq!(compress(Compression::ZIP, three_channel_block()).unwrap(), a);
}
