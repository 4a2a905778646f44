use pcodec_miniblock::block::{
    Compression, CompressiveEncoding, DataBlock, FixedWidthDataBlock, LanceBuffer, Pcodec,
};
use pcodec_miniblock::codec::pcodec_encode;
use pcodec_miniblock::error::Error;
use pcodec_miniblock::pcodec::{encode_page, PcodecMiniBlockEncoder};

fn block(bytes: Vec<u8>, num_values: u64) -> DataBlock {
    DataBlock::FixedWidth(FixedWidthDataBlock {
        data: LanceBuffer::from(bytes),
        bits_per_value: 16,
        num_values,
    })
}

fn encoding(bits_per_value: u64, compression_level: u32) -> CompressiveEncoding {
    CompressiveEncoding {
        compression: Some(Compression::Pcodec(Pcodec {
            bits_per_value,
            compression_level: Some(compression_level),
        })),
    }
}

#[test]
fn default_level_is_eight() {
    let encoder = PcodecMiniBlockEncoder::new(16);
    let (_, described) = encoder.compress(block(vec![], 0)).unwrap();
    assert_eq!(described, encoding(16, 8));
}

#[test]
fn level_is_clamped_to_twelve() {
    for (asked, got) in [(0, 0), (11, 11), (12, 12), (13, 12), (usize::MAX, 12)] {
        let encoder = PcodecMiniBlockEncoder::with_compression_level(64, asked);
        let (_, described) = encoder.compress(block(vec![], 0)).unwrap();
        assert_eq!(described, encoding(64, got));
    }
}

#[test]
fn clone_keeps_width_and_level() {
    let encoder = PcodecMiniBlockEncoder::with_compression_level(32, 3).clone();
    let (_, described) = encoder.compress(block(vec![], 0)).unwrap();
    assert_eq!(described, encoding(32, 3));
}

#[test]
fn page_is_one_chunk_of_one_buffer() {
    let encoder = PcodecMiniBlockEncoder::with_compression_level(16, 5);
    let (page, described) = encoder.compress(block(vec![1, 0, 2, 0, 3, 0], 3)).unwrap();
    assert_eq!(page.data.len(), 1);
    assert_eq!(page.chunks.len(), 1);
    assert_eq!(page.chunks[0].buffer_sizes, vec![page.data[0].len() as u32]);
    assert_eq!(page.chunks[0].log_num_values, 0);
    assert_eq!(page.num_values, 3);
    assert_eq!(described, encoding(16, 5));
    // the magic bytes of a standalone stream
    assert_eq!(&page.data[0].as_ref()[..4], b"pco!");
}

#[test]
fn package_records_the_stream() {
    let encoder = PcodecMiniBlockEncoder::new(32);
    let (page, described) = encoder.package(vec![9, 8, 7], 100);
    assert_eq!(page.data[0].as_ref(), &[9, 8, 7]);
    assert_eq!(page.chunks[0].buffer_sizes, vec![3]);
    assert_eq!(page.num_values, 100);
    assert_eq!(described, encoding(32, 8));
}

#[test]
fn block_without_values_is_an_empty_page() {
    let encoder = PcodecMiniBlockEncoder::new(64);
    let (page, described) = encoder.compress(block(vec![1, 2, 3], 0)).unwrap();
    assert!(page.data.is_empty());
    assert!(page.chunks.is_empty());
    assert_eq!(page.num_values, 0);
    assert_eq!(described, encoding(64, 8));
}

#[test]
fn unsupported_width_is_refused() {
    for bits in [0, 8, 24, 128] {
        let error = encode_page(bits, &[1, 2], 1, 8).unwrap_err();
        assert_eq!(error, Error::UnsupportedEncodingWidth { bits_per_value: bits });
    }
    assert_eq!(
        Error::UnsupportedEncodingWidth { bits_per_value: 128 }.message(),
        "Pcodec encoding only supports 16, 32, or 64 bit values, got 128"
    );
}

#[test]
fn page_is_encoded_at_its_width() {
    let page: Vec<u8> = (0..16).collect();
    let stream = encode_page(16, &page, 8, 8).unwrap();
    let values: Vec<u16> = pco::standalone::simple_decompress(&stream).unwrap();
    assert_eq!(values, bytemuck::pod_collect_to_vec::<u8, u16>(&page));
    let stream = encode_page(32, &page, 4, 8).unwrap();
    let values: Vec<u32> = pco::standalone::simple_decompress(&stream).unwrap();
    assert_eq!(values, bytemuck::pod_collect_to_vec::<u8, u32>(&page));
    let stream = encode_page(64, &page, 2, 8).unwrap();
    let values: Vec<u64> = pco::standalone::simple_decompress(&stream).unwrap();
    assert_eq!(values, bytemuck::pod_collect_to_vec::<u8, u64>(&page));
    let error = encode_page(64, &page, 2, 13).unwrap_err();
    assert!(matches!(error, Error::CompressionFailed { .. }));
}

#[test]
fn other_layout_is_refused() {
    let error = PcodecMiniBlockEncoder::new(16)
        .compress(DataBlock::Other)
        .unwrap_err();
    assert_eq!(error, Error::NotFixedWidth);
    assert_eq!(
        error.message(),
        "Pcodec encoding only supports FixedWidth data blocks"
    );
}

#[test]
fn level_above_the_highest_is_refused() {
    let error = pcodec_encode::<u16>(&[1, 0, 2, 0], 2, 13).unwrap_err();
    assert!(matches!(error, Error::CompressionFailed { .. }));
    assert_eq!(
        error.message(),
        "Pcodec compression failed: pco InvalidArgument error: \
         compression level may not exceed 12 (was 13)"
    );
    assert!(pcodec_encode::<u16>(&[1, 0, 2, 0], 2, 12).is_ok());
    assert!(pcodec_encode::<u16>(&[], 0, 13).is_ok());
}

#[test]
fn page_may_start_at_any_address() {
    let bytes: Vec<u8> = (0..65).collect();
    for start in 0..8 {
        let page = &bytes[start..start + 56];
        let stream = pcodec_encode::<u64>(page, 7, 8).unwrap();
        let values: Vec<u64> = pco::standalone::simple_decompress(&stream).unwrap();
        let expected: Vec<u64> = bytemuck::pod_collect_to_vec(page);
        assert_eq!(values, expected);
    }
}

#[test]
fn values_are_in_native_byte_order() {
    let page: Vec<u8> = [0x0102_u16, 0xfffe]
        .iter()
        .flat_map(|v| v.to_ne_bytes())
        .collect();
    let stream = pcodec_encode::<u16>(&page, 2, 8).unwrap();
    let values: Vec<u16> = pco::standalone::simple_decompress(&stream).unwrap();
    assert_eq!(values, vec![0x0102, 0xfffe]);

    let page: Vec<u8> = 0x01020304_u32.to_ne_bytes().to_vec();
    let stream = pcodec_encode::<u32>(&page, 1, 8).unwrap();
    let values: Vec<u32> = pco::standalone::simple_decompress(&stream).unwrap();
    assert_eq!(values, vec![0x01020304]);
}
