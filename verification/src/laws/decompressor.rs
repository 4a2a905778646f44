//! What a decompressor recovers from a page, and that it undoes an encoder.

use crate::block::{
    Compression, CompressiveEncoding, DataBlock, FixedWidthDataBlock, LanceBuffer,
    MiniBlockCompressed,
};
use crate::error::Error;
use crate::laws::layout::{law_page_holds_u16, law_page_holds_u32, law_page_holds_u64};
use crate::laws::{law_decompression_is_deterministic, law_round_trip, law_wrong_count_is_refused};
use crate::pcodec::{law_decoded_length, PcodecMiniBlockDecompressor, PcodecMiniBlockEncoder};
use crate::streams::{pco_decoded_u16, pco_decoded_u32, pco_decoded_u64};
use vstd::endian::EndianNat;
use vstd::prelude::*;

verus! {

/// A buffer gives back the bytes that it was made of.
pub proof fn law_buffer_gives_back_its_bytes(
    bytes: Vec<u8>,
    buffer: LanceBuffer,
    read: &[u8],
    len: usize,
)
    requires
        call_ensures(LanceBuffer::from, (bytes,), buffer),
        call_ensures(LanceBuffer::as_ref, (&buffer,), read),
        call_ensures(LanceBuffer::len, (&buffer,), len),
    ensures
        buffer@ == bytes@,
        read@ == bytes@,
        len == bytes@.len(),
{
}

/// The empty buffer gives no bytes.
pub proof fn law_empty_buffer_gives_nothing(buffer: LanceBuffer, read: &[u8], len: usize)
    requires
        call_ensures(LanceBuffer::empty, (), buffer),
        call_ensures(LanceBuffer::as_ref, (&buffer,), read),
        call_ensures(LanceBuffer::len, (&buffer,), len),
    ensures
        read@.len() == 0,
        len == 0,
{
}

/// Decompressors can be made for values of 16, 32 and 64 bits, and take any
/// buffers and any count.
pub proof fn law_any_page_is_accepted(
    bits_per_value: usize,
    decompressor: PcodecMiniBlockDecompressor,
    data: Vec<LanceBuffer>,
    num_values: u64,
)
    requires
        bits_per_value == 16 || bits_per_value == 32 || bits_per_value == 64,
    ensures
        call_requires(PcodecMiniBlockDecompressor::new, (bits_per_value,)),
        call_requires(PcodecMiniBlockDecompressor::decompress, (&decompressor, data, num_values)),
        call_requires(PcodecMiniBlockDecompressor::bytes_per_value, (&decompressor,)),
{
}

/// A value takes an eighth as many bytes as bits.
pub proof fn law_bytes_are_an_eighth_of_bits(
    bits_per_value: usize,
    decompressor: PcodecMiniBlockDecompressor,
    bytes: usize,
)
    requires
        bits_per_value == 16 || bits_per_value == 32 || bits_per_value == 64,
        call_ensures(PcodecMiniBlockDecompressor::new, (bits_per_value,), decompressor),
        call_ensures(PcodecMiniBlockDecompressor::bytes_per_value, (&decompressor,), bytes),
    ensures
        8 * bytes == bits_per_value,
{
}

/// Decompressed bytes become, all of them, the block of the values asked for,
/// if they are as many as these take, and are refused with both counts
/// otherwise.
pub proof fn law_assembled_block_is_all_the_bytes(
    bits_per_value: usize,
    decompressor: PcodecMiniBlockDecompressor,
    decompressed: Vec<u8>,
    num_values: u64,
    r: Result<DataBlock, Error>,
)
    requires
        bits_per_value == 16 || bits_per_value == 32 || bits_per_value == 64,
        call_ensures(PcodecMiniBlockDecompressor::new, (bits_per_value,), decompressor),
        (num_values as usize) * (bits_per_value / 8) <= usize::MAX,
        call_ensures(
            PcodecMiniBlockDecompressor::assemble,
            (&decompressor, decompressed, num_values),
            r,
        ),
    ensures
        call_requires(
            PcodecMiniBlockDecompressor::assemble,
            (&decompressor, decompressed, num_values),
        ),
        decompressed@.len() == (num_values as usize) * (bits_per_value / 8) ==> {
            &&& r matches Ok(DataBlock::FixedWidth(block))
            &&& block.data@ == decompressed@
            &&& block.bits_per_value == bits_per_value
            &&& block.num_values == num_values
        },
        decompressed@.len() != (num_values as usize) * (bits_per_value / 8) ==> {
            &&& r matches Err(Error::ByteCount { expected_bytes, got_bytes })
            &&& expected_bytes == (num_values as usize) * (bits_per_value / 8)
            &&& got_bytes == decompressed@.len()
        },
{
    assert(decompressed@.len() == decompressed.len());
}

/// Where no values are asked for, the block is empty, whatever the buffers.
pub proof fn law_no_values_give_an_empty_block(
    bits_per_value: usize,
    decompressor: PcodecMiniBlockDecompressor,
    data: Vec<LanceBuffer>,
    r: Result<DataBlock, Error>,
)
    requires
        call_ensures(PcodecMiniBlockDecompressor::new, (bits_per_value,), decompressor),
        call_ensures(PcodecMiniBlockDecompressor::decompress, (&decompressor, data, 0), r),
    ensures
        r matches Ok(DataBlock::FixedWidth(block)) && {
            &&& block.data@.len() == 0
            &&& block.bits_per_value == bits_per_value
            &&& block.num_values == 0
        },
{
}

/// Values are asked of exactly one buffer.
pub proof fn law_other_buffer_counts_are_refused(
    bits_per_value: usize,
    decompressor: PcodecMiniBlockDecompressor,
    data: Vec<LanceBuffer>,
    num_values: u64,
    r: Result<DataBlock, Error>,
)
    requires
        call_ensures(PcodecMiniBlockDecompressor::new, (bits_per_value,), decompressor),
        num_values != 0,
        data@.len() != 1,
        call_ensures(PcodecMiniBlockDecompressor::decompress, (&decompressor, data, num_values), r),
    ensures
        r matches Err(Error::BufferCount { got }) && got == data@.len(),
{
    assert(data@.len() == data.len());
}

/// Every recovered block has the width that the decompressor was made for, the
/// count that was asked for, and all the bytes that these take.
pub proof fn law_recovered_block_is_complete(
    bits_per_value: usize,
    decompressor: PcodecMiniBlockDecompressor,
    data: Vec<LanceBuffer>,
    num_values: u64,
    recovered: DataBlock,
)
    requires
        bits_per_value == 16 || bits_per_value == 32 || bits_per_value == 64,
        call_ensures(PcodecMiniBlockDecompressor::new, (bits_per_value,), decompressor),
        call_ensures(
            PcodecMiniBlockDecompressor::decompress,
            (&decompressor, data, num_values),
            Ok(recovered),
        ),
    ensures
        recovered matches DataBlock::FixedWidth(block) && {
            &&& block.bits_per_value == bits_per_value
            &&& block.num_values == num_values
            &&& block.data@.len() == (num_values as usize) * (bits_per_value / 8)
        },
{
    if num_values == 0 {
        let count = num_values as usize as int;
        let width = (bits_per_value / 8) as int;
        assert(count * width == 0) by (nonlinear_arith)
            requires
                count == 0,
        ;
    } else {
        law_decoded_length(
            bits_per_value,
            data@[0]@,
            num_values,
            recovered->FixedWidth_0.data@,
        );
    }
}

/// Compression is lossless: a decompressor of the same width recovers from a
/// compressed page the block that it was made of, byte for byte, at every level.
pub proof fn law_decompression_undoes_compression(
    bits_per_value: usize,
    compression_level: usize,
    encoder: PcodecMiniBlockEncoder,
    decompressor: PcodecMiniBlockDecompressor,
    block: FixedWidthDataBlock,
    page: MiniBlockCompressed,
    encoding: CompressiveEncoding,
    r: Result<DataBlock, Error>,
)
    requires
        bits_per_value == 16 || bits_per_value == 32 || bits_per_value == 64,
        call_ensures(
            PcodecMiniBlockEncoder::with_compression_level,
            (bits_per_value, compression_level),
            encoder,
        ),
        call_ensures(PcodecMiniBlockDecompressor::new, (bits_per_value,), decompressor),
        block.data@.len() == (block.num_values as usize) * (bits_per_value / 8),
        call_ensures(
            PcodecMiniBlockEncoder::compress,
            (&encoder, DataBlock::FixedWidth(block)),
            Ok((page, encoding)),
        ),
        call_ensures(
            PcodecMiniBlockDecompressor::decompress,
            (&decompressor, page.data, page.num_values),
            r,
        ),
    ensures
        r matches Ok(DataBlock::FixedWidth(recovered)) && {
            &&& recovered.data@ == block.data@
            &&& recovered.num_values == block.num_values
            &&& recovered.bits_per_value == bits_per_value
        },
{
    law_round_trip(bits_per_value, encoder.level(), block, page, encoding, r);
}

/// The description of a page is enough to read it: a decompressor of the width
/// that it records recovers the block.
pub proof fn law_description_is_enough_to_read_the_page(
    bits_per_value: usize,
    compression_level: usize,
    encoder: PcodecMiniBlockEncoder,
    decompressor: PcodecMiniBlockDecompressor,
    block: FixedWidthDataBlock,
    page: MiniBlockCompressed,
    encoding: CompressiveEncoding,
    r: Result<DataBlock, Error>,
)
    requires
        bits_per_value == 16 || bits_per_value == 32 || bits_per_value == 64,
        call_ensures(
            PcodecMiniBlockEncoder::with_compression_level,
            (bits_per_value, compression_level),
            encoder,
        ),
        block.data@.len() == (block.num_values as usize) * (bits_per_value / 8),
        call_ensures(
            PcodecMiniBlockEncoder::compress,
            (&encoder, DataBlock::FixedWidth(block)),
            Ok((page, encoding)),
        ),
        encoding.compression matches Some(Compression::Pcodec(described)) ==> call_ensures(
            PcodecMiniBlockDecompressor::new,
            (described.bits_per_value as usize,),
            decompressor,
        ),
        call_ensures(
            PcodecMiniBlockDecompressor::decompress,
            (&decompressor, page.data, page.num_values),
            r,
        ),
    ensures
        r matches Ok(DataBlock::FixedWidth(recovered)) && {
            &&& recovered.data@ == block.data@
            &&& recovered.num_values == block.num_values
            &&& recovered.bits_per_value == bits_per_value
        },
{
    law_round_trip(bits_per_value, encoder.level(), block, page, encoding, r);
}

/// A compressed page is refused, with both counts, where another number of
/// values is asked of it than its block holds, other than none at all.
pub proof fn law_other_counts_are_refused(
    bits_per_value: usize,
    compression_level: usize,
    encoder: PcodecMiniBlockEncoder,
    decompressor: PcodecMiniBlockDecompressor,
    block: FixedWidthDataBlock,
    page: MiniBlockCompressed,
    encoding: CompressiveEncoding,
    asked: u64,
    r: Result<DataBlock, Error>,
)
    requires
        bits_per_value == 16 || bits_per_value == 32 || bits_per_value == 64,
        call_ensures(
            PcodecMiniBlockEncoder::with_compression_level,
            (bits_per_value, compression_level),
            encoder,
        ),
        call_ensures(PcodecMiniBlockDecompressor::new, (bits_per_value,), decompressor),
        block.num_values != 0,
        block.data@.len() == (block.num_values as usize) * (bits_per_value / 8),
        call_ensures(
            PcodecMiniBlockEncoder::compress,
            (&encoder, DataBlock::FixedWidth(block)),
            Ok((page, encoding)),
        ),
        asked != 0,
        asked as usize != block.num_values as usize,
        call_ensures(PcodecMiniBlockDecompressor::decompress, (&decompressor, page.data, asked), r),
    ensures
        r == Err::<DataBlock, Error>(
            Error::ValueCount { expected: asked, got: block.num_values as usize },
        ),
{
    law_wrong_count_is_refused(
        bits_per_value,
        encoder.level(),
        block,
        page,
        encoding,
        asked,
        r,
    );
}

/// Decompressors of one width agree on every page: they fail with the same
/// error, or recover the same bytes.
pub proof fn law_decompressors_agree(
    bits_per_value: usize,
    a: PcodecMiniBlockDecompressor,
    b: PcodecMiniBlockDecompressor,
    data: Vec<LanceBuffer>,
    num_values: u64,
    r: Result<DataBlock, Error>,
    s: Result<DataBlock, Error>,
)
    requires
        call_ensures(PcodecMiniBlockDecompressor::new, (bits_per_value,), a),
        call_ensures(PcodecMiniBlockDecompressor::new, (bits_per_value,), b),
        call_ensures(PcodecMiniBlockDecompressor::decompress, (&a, data, num_values), r),
        call_ensures(PcodecMiniBlockDecompressor::decompress, (&b, data, num_values), s),
    ensures
        match (r, s) {
            (Ok(DataBlock::FixedWidth(x)), Ok(DataBlock::FixedWidth(y))) => {
                &&& x.data@ == y.data@
                &&& x.bits_per_value == y.bits_per_value
                &&& x.num_values == y.num_values
            },
            (Err(e), Err(f)) => e == f,
            _ => false,
        },
{
    law_decompression_is_deterministic(bits_per_value, data@, num_values, r, s);
}

/// A buffer decompresses, at a width of 16 bits, to the block that holds all the
/// values that it decodes to, in order, if there are as many as asked for. It
/// is refused with the error of the decoder if it does not decode, and with
/// both counts if there are more or fewer.
pub proof fn law_decompressed_block_of_16_bits(
    decompressor: PcodecMiniBlockDecompressor,
    data: Vec<LanceBuffer>,
    num_values: u64,
    r: Result<DataBlock, Error>,
)
    requires
        call_ensures(PcodecMiniBlockDecompressor::new, (16,), decompressor),
        num_values != 0,
        data@.len() == 1,
        call_ensures(PcodecMiniBlockDecompressor::decompress, (&decompressor, data, num_values), r),
    ensures
        match pco_decoded_u16(data@[0]@) {
            Err(cause) => r == Err::<DataBlock, Error>(Error::DecompressionFailed { cause }),
            Ok(values) => if values.len() != num_values as usize {
                r == Err::<DataBlock, Error>(
                    Error::ValueCount { expected: num_values, got: values.len() as usize },
                )
            } else {
                &&& r matches Ok(DataBlock::FixedWidth(block))
                &&& block.bits_per_value == 16
                &&& block.num_values == num_values
                &&& block.data@.len() == 2 * values.len()
                &&& forall|i: int|
                    0 <= i < values.len() ==> #[trigger] values[i] as nat == EndianNat::<
                        u8,
                    >::new_default(
                        block.data@.subrange(2 * i, 2 * i + 2).map_values(
                            |byte: u8| byte as int,
                        ),
                    ).to_nat()
            },
        },
{
    if let (Ok(values), Ok(DataBlock::FixedWidth(block))) = (pco_decoded_u16(data@[0]@), r) {
        law_page_holds_u16(block.data@, values);
    }
}

/// A buffer decompresses, at a width of 32 bits, to the block that holds all the
/// values that it decodes to, in order, if there are as many as asked for. It
/// is refused with the error of the decoder if it does not decode, and with
/// both counts if there are more or fewer.
pub proof fn law_decompressed_block_of_32_bits(
    decompressor: PcodecMiniBlockDecompressor,
    data: Vec<LanceBuffer>,
    num_values: u64,
    r: Result<DataBlock, Error>,
)
    requires
        call_ensures(PcodecMiniBlockDecompressor::new, (32,), decompressor),
        num_values != 0,
        data@.len() == 1,
        call_ensures(PcodecMiniBlockDecompressor::decompress, (&decompressor, data, num_values), r),
    ensures
        match pco_decoded_u32(data@[0]@) {
            Err(cause) => r == Err::<DataBlock, Error>(Error::DecompressionFailed { cause }),
            Ok(values) => if values.len() != num_values as usize {
                r == Err::<DataBlock, Error>(
                    Error::ValueCount { expected: num_values, got: values.len() as usize },
                )
            } else {
                &&& r matches Ok(DataBlock::FixedWidth(block))
                &&& block.bits_per_value == 32
                &&& block.num_values == num_values
                &&& block.data@.len() == 4 * values.len()
                &&& forall|i: int|
                    0 <= i < values.len() ==> #[trigger] values[i] as nat == EndianNat::<
                        u8,
                    >::new_default(
                        block.data@.subrange(4 * i, 4 * i + 4).map_values(
                            |byte: u8| byte as int,
                        ),
                    ).to_nat()
            },
        },
{
    if let (Ok(values), Ok(DataBlock::FixedWidth(block))) = (pco_decoded_u32(data@[0]@), r) {
        law_page_holds_u32(block.data@, values);
    }
}

/// A buffer decompresses, at a width of 64 bits, to the block that holds all the
/// values that it decodes to, in order, if there are as many as asked for. It
/// is refused with the error of the decoder if it does not decode, and with
/// both counts if there are more or fewer.
pub proof fn law_decompressed_block_of_64_bits(
    decompressor: PcodecMiniBlockDecompressor,
    data: Vec<LanceBuffer>,
    num_values: u64,
    r: Result<DataBlock, Error>,
)
    requires
        call_ensures(PcodecMiniBlockDecompressor::new, (64,), decompressor),
        num_values != 0,
        data@.len() == 1,
        call_ensures(PcodecMiniBlockDecompressor::decompress, (&decompressor, data, num_values), r),
    ensures
        match pco_decoded_u64(data@[0]@) {
            Err(cause) => r == Err::<DataBlock, Error>(Error::DecompressionFailed { cause }),
            Ok(values) => if values.len() != num_values as usize {
                r == Err::<DataBlock, Error>(
                    Error::ValueCount { expected: num_values, got: values.len() as usize },
                )
            } else {
                &&& r matches Ok(DataBlock::FixedWidth(block))
                &&& block.bits_per_value == 64
                &&& block.num_values == num_values
                &&& block.data@.len() == 8 * values.len()
                &&& forall|i: int|
                    0 <= i < values.len() ==> #[trigger] values[i] as nat == EndianNat::<
                        u8,
                    >::new_default(
                        block.data@.subrange(8 * i, 8 * i + 8).map_values(
                            |byte: u8| byte as int,
                        ),
                    ).to_nat()
            },
        },
{
    if let (Ok(values), Ok(DataBlock::FixedWidth(block))) = (pco_decoded_u64(data@[0]@), r) {
        law_page_holds_u64(block.data@, values);
    }
}

} // verus!
