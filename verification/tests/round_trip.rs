use arrow_array::Int32Array;
use pcodec_miniblock::block::{DataBlock, FixedWidthDataBlock, LanceBuffer};
use pcodec_miniblock::pcodec::{PcodecMiniBlockDecompressor, PcodecMiniBlockEncoder};

fn block_of<T: bytemuck::Pod>(data: &[T], bits_per_value: usize) -> DataBlock {
    let bytes: Vec<u8> = bytemuck::cast_slice(data).to_vec();
    DataBlock::FixedWidth(FixedWidthDataBlock {
        data: LanceBuffer::from(bytes),
        bits_per_value: bits_per_value as u64,
        num_values: data.len() as u64,
    })
}

fn fixed(block: DataBlock) -> FixedWidthDataBlock {
    match block {
        DataBlock::FixedWidth(block) => block,
        DataBlock::Other => panic!("Expected FixedWidth DataBlock"),
    }
}

fn test_round_trip<T: bytemuck::Pod + PartialEq + std::fmt::Debug>(
    data: Vec<T>,
    bits_per_value: usize,
) {
    let encoder = PcodecMiniBlockEncoder::new(bits_per_value);
    let decompressor = PcodecMiniBlockDecompressor::new(bits_per_value);

    let (compressed, _encoding) = encoder.compress(block_of(&data, bits_per_value)).unwrap();

    let decompressed = decompressor
        .decompress(compressed.data, compressed.num_values)
        .unwrap();

    let decompressed_block = fixed(decompressed);
    let result: Vec<T> = bytemuck::pod_collect_to_vec(decompressed_block.data.as_ref());
    assert_eq!(result, data);
    assert_eq!(decompressed_block.num_values, data.len() as u64);
    assert_eq!(decompressed_block.bits_per_value, bits_per_value as u64);
}

#[test]
fn test_round_trip_u16() {
    let data: Vec<u16> = (0..1000).collect();
    test_round_trip(data, 16);
}

#[test]
fn test_round_trip_i32() {
    let data: Vec<i32> = (-500..500).collect();
    test_round_trip(data, 32);
}

#[test]
fn test_round_trip_u32() {
    let data: Vec<u32> = (0..1000).collect();
    test_round_trip(data, 32);
}

#[test]
fn test_round_trip_i64() {
    let data: Vec<i64> = (-500..500).collect();
    test_round_trip(data, 64);
}

#[test]
fn test_round_trip_f32() {
    let data: Vec<f32> = (0..1000).map(|i| i as f32 * 0.1).collect();
    test_round_trip(data, 32);
}

#[test]
fn test_round_trip_f64() {
    let data: Vec<f64> = (0..1000).map(|i| i as f64 * 0.1).collect();
    test_round_trip(data, 64);
}

#[test]
fn test_empty_data() {
    let encoder = PcodecMiniBlockEncoder::new(32);
    let decompressor = PcodecMiniBlockDecompressor::new(32);

    let data_block = DataBlock::FixedWidth(FixedWidthDataBlock {
        data: LanceBuffer::empty(),
        bits_per_value: 32,
        num_values: 0,
    });

    let (compressed, _encoding) = encoder.compress(data_block).unwrap();
    assert!(compressed.data.is_empty());
    assert!(compressed.chunks.is_empty());
    assert_eq!(compressed.num_values, 0);

    let decompressed = decompressor.decompress(compressed.data, 0).unwrap();
    let decompressed_block = fixed(decompressed);

    assert_eq!(decompressed_block.num_values, 0);
    assert_eq!(decompressed_block.data.len(), 0);
    assert_eq!(decompressed_block.bits_per_value, 32);
}

#[test]
fn test_compression_level() {
    for level in [0, 4, 8, 12] {
        let encoder = PcodecMiniBlockEncoder::with_compression_level(32, level);
        let decompressor = PcodecMiniBlockDecompressor::new(32);

        let data: Vec<i32> = (0..1000).collect();
        let (compressed, _encoding) = encoder.compress(block_of(&data, 32)).unwrap();

        let decompressed = decompressor
            .decompress(compressed.data, compressed.num_values)
            .unwrap();

        let decompressed_block = fixed(decompressed);
        let result: Vec<i32> = bytemuck::pod_collect_to_vec(decompressed_block.data.as_ref());
        assert_eq!(result, data);
    }
}

#[test]
fn test_timestamp_like_data() {
    // Timestamps are a common use case for Pcodec: sequential, small deltas.
    let base: i64 = 1704067200000000000;
    let data: Vec<i64> = (0..10000).map(|i| base + i * 1000000).collect();

    let encoder = PcodecMiniBlockEncoder::new(64);
    let decompressor = PcodecMiniBlockDecompressor::new(64);

    let original_size = data.len() * 8;
    let (compressed, _encoding) = encoder.compress(block_of(&data, 64)).unwrap();
    let compressed_size: usize = compressed.data.iter().map(|b| b.len()).sum();

    // Pcodec should achieve good compression on sequential data
    assert!(
        compressed_size < original_size,
        "Compressed size {} should be less than original {}",
        compressed_size,
        original_size
    );

    let decompressed = decompressor
        .decompress(compressed.data, compressed.num_values)
        .unwrap();

    let decompressed_block = fixed(decompressed);
    let result: Vec<i64> = bytemuck::pod_collect_to_vec(decompressed_block.data.as_ref());
    assert_eq!(result, data);
}

#[test]
fn test_from_arrow_arrays() {
    let i32_arr = Int32Array::from(vec![1, 2, 3, 4, 5, 6, 7, 8, 9, 10]);
    let data_block = block_of(&i32_arr.values()[..], 32);

    let encoder = PcodecMiniBlockEncoder::new(32);
    let decompressor = PcodecMiniBlockDecompressor::new(32);

    let (compressed, _) = encoder.compress(data_block).unwrap();
    let decompressed = decompressor
        .decompress(compressed.data, compressed.num_values)
        .unwrap();

    let block = fixed(decompressed);
    let result: Vec<i32> = bytemuck::pod_collect_to_vec(block.data.as_ref());
    assert_eq!(result.len(), 10);
    assert_eq!(&result[..], &i32_arr.values()[..]);
}

#[test]
fn round_trip_of_signed_halfwords() {
    let data: Vec<i16> = (-500..500).collect();
    test_round_trip(data, 16);
}

#[test]
fn round_trip_of_extreme_values() {
    test_round_trip(vec![u16::MIN, u16::MAX, 1, u16::MAX - 1], 16);
    test_round_trip(vec![i32::MIN, i32::MAX, 0, -1], 32);
    test_round_trip(vec![u64::MIN, u64::MAX, 1 << 63, 7], 64);
    test_round_trip(vec![42_u64], 64);
}

#[test]
fn round_trip_of_special_floats() {
    let data = [0.0, -0.0, f64::INFINITY, f64::NEG_INFINITY, f64::NAN, f64::MIN_POSITIVE];
    let bits: Vec<u64> = data.iter().map(|x| x.to_bits()).collect();
    test_round_trip(bits, 64);
}

#[test]
fn round_trip_of_more_values_than_fit_a_chunk() {
    let data: Vec<u32> = (0..30000_u32).map(|i| i.wrapping_mul(2654435761)).collect();
    test_round_trip(data, 32);
}

#[test]
fn round_trip_of_multiples_of_a_base() {
    let data: Vec<u64> = (0..5000_u64).map(|i| (i * 7919 % 1009) * 1000 + 3).collect();
    test_round_trip(data, 64);
}

#[test]
fn every_level_recovers_the_same_page() {
    let data: Vec<u16> = (0..2000_u16).map(|i| i.wrapping_mul(31)).collect();
    let decompressor = PcodecMiniBlockDecompressor::new(16);
    for level in 0..=20 {
        let encoder = PcodecMiniBlockEncoder::with_compression_level(16, level);
        let (compressed, _) = encoder.compress(block_of(&data, 16)).unwrap();
        let block = fixed(
            decompressor
                .decompress(compressed.data, compressed.num_values)
                .unwrap(),
        );
        assert_eq!(block.data.as_ref(), bytemuck::cast_slice::<u16, u8>(&data));
    }
}

#[test]
fn decompression_gives_the_same_block_twice() {
    let data: Vec<u32> = (0..100).map(|i| i * i).collect();
    let decompressor = PcodecMiniBlockDecompressor::new(32);
    let (compressed, _) = PcodecMiniBlockEncoder::new(32)
        .compress(block_of(&data, 32))
        .unwrap();
    let stream = compressed.data[0].as_ref().to_vec();
    let first = decompressor
        .decompress(vec![LanceBuffer::from(stream.clone())], 100)
        .unwrap();
    let second = decompressor
        .decompress(vec![LanceBuffer::from(stream)], 100)
        .unwrap();
    assert_eq!(first, second);
}

#[test]
fn width_recorded_in_the_block_is_not_read() {
    let encoder = PcodecMiniBlockEncoder::new(32);
    let decompressor = PcodecMiniBlockDecompressor::new(32);
    let data: Vec<u32> = (0..500).map(|i| i * 3 + i % 7).collect();
    let (a, described) = encoder.compress(block_of(&data, 32)).unwrap();
    let (b, again) = encoder.compress(block_of(&data, 8)).unwrap();
    assert_eq!(described, again);
    assert_eq!(a.num_values, b.num_values);
    assert_eq!(a.data.len(), b.data.len());
    assert_eq!(a.chunks.len(), b.chunks.len());
    assert_eq!(a.chunks[0].log_num_values, b.chunks[0].log_num_values);
    assert_eq!(
        decompressor.decompress(a.data, 500),
        decompressor.decompress(b.data, 500)
    );
}

#[test]
fn compressing_twice_is_refused_the_same_way_on_a_wrong_count() {
    let encoder = PcodecMiniBlockEncoder::new(64);
    let decompressor = PcodecMiniBlockDecompressor::new(64);
    let data: Vec<u64> = (0..100).map(|i| i * 1000).collect();
    let (a, _) = encoder.compress(block_of(&data, 64)).unwrap();
    let (b, _) = encoder.compress(block_of(&data, 64)).unwrap();
    assert_eq!(
        decompressor.decompress(a.data, 99),
        decompressor.decompress(b.data, 99)
    );
}

#[test]
fn levels_above_the_highest_act_as_it() {
    let decompressor = PcodecMiniBlockDecompressor::new(32);
    let data: Vec<u32> = (0..500).map(|i| i * i).collect();
    let (highest, described) = PcodecMiniBlockEncoder::with_compression_level(32, 12)
        .compress(block_of(&data, 32))
        .unwrap();
    let highest = decompressor.decompress(highest.data, 500).unwrap();
    for level in [13, 100, usize::MAX] {
        let (high, again) = PcodecMiniBlockEncoder::with_compression_level(32, level)
            .compress(block_of(&data, 32))
            .unwrap();
        assert_eq!(again, described);
        assert_eq!(decompressor.decompress(high.data, 500).unwrap(), highest);
    }
}

#[test]
fn different_pages_have_different_streams() {
    let encoder = PcodecMiniBlockEncoder::new(16);
    let (a, _) = encoder.compress(block_of(&[1_u16, 2, 3], 16)).unwrap();
    let (b, _) = encoder.compress(block_of(&[1_u16, 2, 4], 16)).unwrap();
    assert_ne!(a.data[0].as_ref(), b.data[0].as_ref());
}
