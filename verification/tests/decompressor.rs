use pcodec_miniblock::block::{DataBlock, FixedWidthDataBlock, LanceBuffer};
use pcodec_miniblock::codec::{pcodec_decode, pcodec_encode, pcodec_page};
use pcodec_miniblock::error::Error;
use pcodec_miniblock::pcodec::{decode_page, PcodecMiniBlockDecompressor};
use pcodec_miniblock::text::append_decimal;

fn stream_of_u32(values: &[u32]) -> Vec<u8> {
    pcodec_encode::<u32>(bytemuck::cast_slice(values), values.len() as u64, 8).unwrap()
}

#[test]
fn bytes_per_value_is_an_eighth() {
    for (bits, bytes) in [(16, 2), (32, 4), (64, 8)] {
        assert_eq!(
            PcodecMiniBlockDecompressor::new(bits).bytes_per_value(),
            bytes
        );
    }
}

#[test]
fn no_values_need_no_buffer() {
    for bits in [16, 32, 64] {
        let block = PcodecMiniBlockDecompressor::new(bits)
            .decompress(vec![], 0)
            .unwrap();
        assert_eq!(
            block,
            DataBlock::FixedWidth(FixedWidthDataBlock {
                data: LanceBuffer::empty(),
                bits_per_value: bits as u64,
                num_values: 0,
            })
        );
    }
}

#[test]
fn buffer_count_has_to_be_one() {
    let decompressor = PcodecMiniBlockDecompressor::new(32);
    let error = decompressor.decompress(vec![], 5).unwrap_err();
    assert_eq!(error, Error::BufferCount { got: 0 });
    let two = vec![LanceBuffer::from(stream_of_u32(&[1])), LanceBuffer::empty()];
    let error = decompressor.decompress(two, 1).unwrap_err();
    assert_eq!(error, Error::BufferCount { got: 2 });
    assert_eq!(
        error.message(),
        "Pcodec decompression expects 1 buffer, but got 2"
    );
}

#[test]
fn unsupported_width_is_not_decoded() {
    for bits in [0, 8, 24, 128] {
        let error = decode_page(bits, &stream_of_u32(&[1]), 1).unwrap_err();
        assert_eq!(error, Error::UnsupportedDecodingWidth { bits_per_value: bits });
    }
    assert_eq!(
        Error::UnsupportedDecodingWidth { bits_per_value: 24 }.message(),
        "Pcodec decoding only supports 16, 32, or 64 bit values, got 24"
    );
}

#[test]
fn page_is_decoded_at_its_width() {
    let values = [7_u32, 8, u32::MAX];
    let stream = stream_of_u32(&values);
    assert_eq!(
        decode_page(32, &stream, 3).unwrap(),
        bytemuck::cast_slice::<u32, u8>(&values)
    );
    for bits in [16, 64] {
        let error = decode_page(bits, &stream, 3).unwrap_err();
        assert!(matches!(error, Error::DecompressionFailed { .. }));
    }
}

#[test]
fn wrong_count_is_refused() {
    let decompressor = PcodecMiniBlockDecompressor::new(32);
    for asked in [1, 2, 4, 1000] {
        let buffers = vec![LanceBuffer::from(stream_of_u32(&[7, 8, 9]))];
        let error = decompressor.decompress(buffers, asked).unwrap_err();
        assert_eq!(error, Error::ValueCount { expected: asked, got: 3 });
    }
    assert_eq!(
        Error::ValueCount { expected: 1000, got: 3 }.message(),
        "Pcodec decompression expected 1000 values but got 3"
    );
}

#[test]
fn garbage_is_refused() {
    let decompressor = PcodecMiniBlockDecompressor::new(32);
    for bytes in [vec![], vec![0; 64], b"pco".to_vec(), b"not a stream".to_vec()] {
        let error = decompressor
            .decompress(vec![LanceBuffer::from(bytes)], 3)
            .unwrap_err();
        assert!(matches!(error, Error::DecompressionFailed { .. }));
        assert!(error.message().starts_with("Pcodec decompression failed: pco "));
    }
}

#[test]
fn decompression_fails_the_same_way_twice() {
    let decompressor = PcodecMiniBlockDecompressor::new(16);
    let fail = || {
        decompressor
            .decompress(vec![LanceBuffer::from(b"pco? no".to_vec())], 3)
            .unwrap_err()
    };
    assert_eq!(fail(), fail());
}

#[test]
fn empty_stream_decodes_to_nothing() {
    let stream = pcodec_encode::<u64>(&[], 0, 8).unwrap();
    assert_eq!(pcodec_decode::<u64>(&stream, 0).unwrap(), Vec::<u8>::new());
    assert_eq!(
        pcodec_decode::<u64>(&stream, 1).unwrap_err(),
        Error::ValueCount { expected: 1, got: 0 }
    );
}

#[test]
fn truncated_stream_is_refused() {
    let stream = stream_of_u32(&[7, 8, 9]);
    for len in 0..stream.len() {
        let error = pcodec_decode::<u32>(&stream[..len], 3).unwrap_err();
        assert!(matches!(error, Error::DecompressionFailed { .. }));
    }
}

#[test]
fn stream_of_another_width_is_refused() {
    let stream = stream_of_u32(&[7, 8, 9]);
    for error in [
        pcodec_decode::<u16>(&stream, 3).unwrap_err(),
        pcodec_decode::<u64>(&stream, 3).unwrap_err(),
    ] {
        assert!(matches!(error, Error::DecompressionFailed { .. }));
    }
}

#[test]
fn stream_from_elsewhere_is_decoded() {
    let values = vec![5_u64, 1 << 40, u64::MAX];
    let stream = pco::standalone::simple_compress(&values, &pco::ChunkConfig::default()).unwrap();
    let block = PcodecMiniBlockDecompressor::new(64)
        .decompress(vec![LanceBuffer::from(stream)], 3)
        .unwrap();
    let bytes: Vec<u8> = values.iter().flat_map(|v| v.to_ne_bytes()).collect();
    assert_eq!(
        block,
        DataBlock::FixedWidth(FixedWidthDataBlock {
            data: LanceBuffer::from(bytes),
            bits_per_value: 64,
            num_values: 3,
        })
    );
}

#[test]
fn decoded_values_become_native_bytes() {
    let page = pcodec_page(vec![0x0102_u16, 3], 2).unwrap();
    let mut expected = 0x0102_u16.to_ne_bytes().to_vec();
    expected.extend(3_u16.to_ne_bytes());
    assert_eq!(page, expected);
    assert_eq!(
        pcodec_page(vec![0x01020304_u32], 1).unwrap(),
        0x01020304_u32.to_ne_bytes().to_vec()
    );
    assert_eq!(
        pcodec_page(vec![1_u32, 2], 1).unwrap_err(),
        Error::ValueCount { expected: 1, got: 2 }
    );
}

#[test]
fn byte_count_has_to_match() {
    let decompressor = PcodecMiniBlockDecompressor::new(32);
    let error = decompressor.assemble(vec![1, 2, 3, 4], 2).unwrap_err();
    assert_eq!(error, Error::ByteCount { expected_bytes: 8, got_bytes: 4 });
    assert_eq!(
        error.message(),
        "Expected 8 bytes after decompression, but got 4"
    );
    let block = decompressor.assemble(vec![1, 2, 3, 4], 1).unwrap();
    assert_eq!(
        block,
        DataBlock::FixedWidth(FixedWidthDataBlock {
            data: LanceBuffer::from(vec![1, 2, 3, 4]),
            bits_per_value: 32,
            num_values: 1,
        })
    );
}

#[test]
fn decimal_notation() {
    for n in [0, 9, 10, 1234567890, u64::MAX] {
        let mut text = String::from("n = ");
        append_decimal(&mut text, n);
        assert_eq!(text, format!("n = {}", n));
    }
}
