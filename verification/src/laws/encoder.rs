//! What an encoder makes of a block, from the width and the level that it was
//! made with.

use crate::block::{
    Compression, CompressiveEncoding, DataBlock, FixedWidthDataBlock, MiniBlockCompressed,
};
use crate::error::Error;
use crate::laws::layout::{law_page_holds_u16, law_page_holds_u32, law_page_holds_u64};
use crate::pcodec::PcodecMiniBlockEncoder;
use crate::streams::{
    pco_decoded_u16, pco_decoded_u32, pco_decoded_u64, pco_may_give_u16, pco_may_give_u32,
    pco_may_give_u64,
};
use pco::errors::PcoError;
use vstd::endian::EndianNat;
use vstd::prelude::*;

verus! {

/// Encoders can be made for values of 16, 32 and 64 bits, at any level.
pub proof fn law_encoders_can_be_made(bits_per_value: usize, compression_level: usize)
    requires
        bits_per_value == 16 || bits_per_value == 32 || bits_per_value == 64,
    ensures
        call_requires(PcodecMiniBlockEncoder::new, (bits_per_value,)),
        call_requires(
            PcodecMiniBlockEncoder::with_compression_level,
            (bits_per_value, compression_level),
        ),
{
}

/// A level from 0 to 12 is kept, and any other becomes 12.
pub proof fn law_level_is_kept_up_to_twelve(
    bits_per_value: usize,
    compression_level: usize,
    encoder: PcodecMiniBlockEncoder,
)
    requires
        call_ensures(
            PcodecMiniBlockEncoder::with_compression_level,
            (bits_per_value, compression_level),
            encoder,
        ),
    ensures
        encoder.bits() == bits_per_value,
        compression_level <= 12 ==> encoder.level() == compression_level,
        compression_level > 12 ==> encoder.level() == 12,
{
}

/// An encoder made without a level has the width that it was made for and
/// the level 8.
pub proof fn law_default_level_is_eight(bits_per_value: usize, encoder: PcodecMiniBlockEncoder)
    requires
        call_ensures(PcodecMiniBlockEncoder::new, (bits_per_value,), encoder),
    ensures
        encoder.bits() == bits_per_value,
        encoder.level() == 8,
{
}

/// A clone is the same encoder.
pub proof fn law_clone_is_the_same(encoder: PcodecMiniBlockEncoder, other: PcodecMiniBlockEncoder)
    requires
        call_ensures(<PcodecMiniBlockEncoder as Clone>::clone, (&encoder,), other),
    ensures
        other == encoder,
{
}

/// An encoder takes every block of another layout, every block without values,
/// and every block that holds as many values of its width as it counts.
pub proof fn law_whole_blocks_are_accepted(
    bits_per_value: usize,
    compression_level: usize,
    encoder: PcodecMiniBlockEncoder,
    block: FixedWidthDataBlock,
)
    requires
        bits_per_value == 16 || bits_per_value == 32 || bits_per_value == 64,
        call_ensures(
            PcodecMiniBlockEncoder::with_compression_level,
            (bits_per_value, compression_level),
            encoder,
        ),
        block.num_values != 0 ==> 8 * block.data@.len() == bits_per_value * (
        block.num_values as usize),
    ensures
        call_requires(PcodecMiniBlockEncoder::compress, (&encoder, DataBlock::FixedWidth(block))),
        call_requires(PcodecMiniBlockEncoder::compress, (&encoder, DataBlock::Other)),
{
    let count = block.num_values as usize as int;
    if bits_per_value == 16 {
        assert(block.num_values != 0 ==> 8 * block.data@.len() == 16 * count);
    } else if bits_per_value == 32 {
        assert(block.num_values != 0 ==> 8 * block.data@.len() == 32 * count);
    } else {
        assert(block.num_values != 0 ==> 8 * block.data@.len() == 64 * count);
    }
}

/// Compression succeeds on every fixed-width block, and fails on every other
/// one for its layout.
pub proof fn law_fixed_width_blocks_are_compressed(
    bits_per_value: usize,
    compression_level: usize,
    encoder: PcodecMiniBlockEncoder,
    block: DataBlock,
    r: Result<(MiniBlockCompressed, CompressiveEncoding), Error>,
)
    requires
        bits_per_value == 16 || bits_per_value == 32 || bits_per_value == 64,
        call_ensures(
            PcodecMiniBlockEncoder::with_compression_level,
            (bits_per_value, compression_level),
            encoder,
        ),
        call_ensures(PcodecMiniBlockEncoder::compress, (&encoder, block), r),
    ensures
        block is FixedWidth ==> r is Ok,
        block is Other ==> r == Err::<(MiniBlockCompressed, CompressiveEncoding), Error>(
            Error::NotFixedWidth,
        ),
{
}

/// A compressed page counts the values of its block. Where there are any, it
/// is a single buffer, and a single chunk that is the last one and records
/// the size of the buffer, which takes the lowest 32 bits of it. Where there
/// are none, it is empty.
pub proof fn law_compressed_page_is_one_chunk(
    bits_per_value: usize,
    compression_level: usize,
    encoder: PcodecMiniBlockEncoder,
    block: FixedWidthDataBlock,
    page: MiniBlockCompressed,
    encoding: CompressiveEncoding,
)
    requires
        call_ensures(
            PcodecMiniBlockEncoder::with_compression_level,
            (bits_per_value, compression_level),
            encoder,
        ),
        call_ensures(
            PcodecMiniBlockEncoder::compress,
            (&encoder, DataBlock::FixedWidth(block)),
            Ok((page, encoding)),
        ),
    ensures
        page.num_values == block.num_values,
        block.num_values == 0 ==> page.data@.len() == 0 && page.chunks@.len() == 0,
        block.num_values != 0 ==> {
            &&& page.data@.len() == 1
            &&& page.chunks@.len() == 1
            &&& page.chunks@[0].log_num_values == 0
            &&& page.chunks@[0].buffer_sizes@.len() == 1
            &&& page.chunks@[0].buffer_sizes@[0] == page.data@[0]@.len() % 0x1_0000_0000
            &&& page.data@[0]@.len() <= u32::MAX ==> page.chunks@[0].buffer_sizes@[0]
                == page.data@[0]@.len()
        },
{
}

/// The description of a compressed page names the width that the encoder was
/// made for, and the level that it was made at or 12 if that is lower.
pub proof fn law_description_names_width_and_level(
    bits_per_value: usize,
    compression_level: usize,
    encoder: PcodecMiniBlockEncoder,
    block: DataBlock,
    page: MiniBlockCompressed,
    encoding: CompressiveEncoding,
)
    requires
        call_ensures(
            PcodecMiniBlockEncoder::with_compression_level,
            (bits_per_value, compression_level),
            encoder,
        ),
        call_ensures(PcodecMiniBlockEncoder::compress, (&encoder, block), Ok((page, encoding))),
    ensures
        encoding.compression matches Some(Compression::Pcodec(described)) && {
            &&& described.bits_per_value == bits_per_value
            &&& compression_level <= 12 ==> described.compression_level == Some(
                compression_level as u32,
            )
            &&& compression_level > 12 ==> described.compression_level == Some(12u32)
        },
{
}

/// The description of a page compressed without a choice of level names the
/// level 8.
pub proof fn law_description_names_the_default_level(
    bits_per_value: usize,
    encoder: PcodecMiniBlockEncoder,
    block: DataBlock,
    page: MiniBlockCompressed,
    encoding: CompressiveEncoding,
)
    requires
        call_ensures(PcodecMiniBlockEncoder::new, (bits_per_value,), encoder),
        call_ensures(PcodecMiniBlockEncoder::compress, (&encoder, block), Ok((page, encoding))),
    ensures
        encoding.compression matches Some(Compression::Pcodec(described)) && {
            &&& described.bits_per_value == bits_per_value
            &&& described.compression_level == Some(8u32)
        },
{
}

/// A packed stream is the one buffer of a page with one chunk, which is the
/// last one and records the size of the stream, as far as 32 bits hold it. The
/// page counts the values given, and is described as the encoder was made.
pub proof fn law_packed_stream_is_one_chunk(
    bits_per_value: usize,
    compression_level: usize,
    encoder: PcodecMiniBlockEncoder,
    compressed: Vec<u8>,
    num_values: u64,
    r: (MiniBlockCompressed, CompressiveEncoding),
)
    requires
        call_ensures(
            PcodecMiniBlockEncoder::with_compression_level,
            (bits_per_value, compression_level),
            encoder,
        ),
        call_ensures(PcodecMiniBlockEncoder::package, (&encoder, compressed, num_values), r),
    ensures
        r.0.num_values == num_values,
        r.0.data@.len() == 1,
        r.0.data@[0]@ == compressed@,
        r.0.chunks@.len() == 1,
        r.0.chunks@[0].log_num_values == 0,
        r.0.chunks@[0].buffer_sizes@.len() == 1,
        r.0.chunks@[0].buffer_sizes@[0] == compressed@.len() % 0x1_0000_0000,
        compressed@.len() <= u32::MAX ==> r.0.chunks@[0].buffer_sizes@[0] == compressed@.len(),
        r.1.compression matches Some(Compression::Pcodec(described)) && {
            &&& described.bits_per_value == bits_per_value
            &&& compression_level <= 12 ==> described.compression_level == Some(
                compression_level as u32,
            )
            &&& compression_level > 12 ==> described.compression_level == Some(12u32)
        },
{
}

/// The buffer of a page compressed from 16 bit values decodes to every value
/// that the block holds, in order, and is an output that the compressor can
/// have for them at the level that the encoder was made at, or 12 if that is
/// lower, in chunks of at most 8186 values.
pub proof fn law_compressed_page_of_16_bits(
    compression_level: usize,
    encoder: PcodecMiniBlockEncoder,
    block: FixedWidthDataBlock,
    values: Seq<u16>,
    page: MiniBlockCompressed,
    encoding: CompressiveEncoding,
)
    requires
        call_ensures(
            PcodecMiniBlockEncoder::with_compression_level,
            (16, compression_level),
            encoder,
        ),
        block.num_values != 0,
        block.data@.len() == 2 * values.len(),
        forall|i: int|
            0 <= i < values.len() ==> #[trigger] values[i] as nat == EndianNat::<u8>::new_default(
                block.data@.subrange(2 * i, 2 * i + 2).map_values(|byte: u8| byte as int),
            ).to_nat(),
        call_ensures(
            PcodecMiniBlockEncoder::compress,
            (&encoder, DataBlock::FixedWidth(block)),
            Ok((page, encoding)),
        ),
    ensures
        pco_decoded_u16(page.data@[0]@) == Ok::<Seq<u16>, PcoError>(values),
        compression_level <= 12 ==> pco_may_give_u16(
            values,
            compression_level,
            8186,
            Ok(page.data@[0]@),
        ),
        compression_level > 12 ==> pco_may_give_u16(values, 12, 8186, Ok(page.data@[0]@)),
{
    law_page_holds_u16(block.data@, values);
}

/// The buffer of a page compressed from 32 bit values decodes to every value
/// that the block holds, in order, and is an output that the compressor can
/// have for them at the level that the encoder was made at, or 12 if that is
/// lower, in chunks of at most 8186 values.
pub proof fn law_compressed_page_of_32_bits(
    compression_level: usize,
    encoder: PcodecMiniBlockEncoder,
    block: FixedWidthDataBlock,
    values: Seq<u32>,
    page: MiniBlockCompressed,
    encoding: CompressiveEncoding,
)
    requires
        call_ensures(
            PcodecMiniBlockEncoder::with_compression_level,
            (32, compression_level),
            encoder,
        ),
        block.num_values != 0,
        block.data@.len() == 4 * values.len(),
        forall|i: int|
            0 <= i < values.len() ==> #[trigger] values[i] as nat == EndianNat::<u8>::new_default(
                block.data@.subrange(4 * i, 4 * i + 4).map_values(|byte: u8| byte as int),
            ).to_nat(),
        call_ensures(
            PcodecMiniBlockEncoder::compress,
            (&encoder, DataBlock::FixedWidth(block)),
            Ok((page, encoding)),
        ),
    ensures
        pco_decoded_u32(page.data@[0]@) == Ok::<Seq<u32>, PcoError>(values),
        compression_level <= 12 ==> pco_may_give_u32(
            values,
            compression_level,
            8186,
            Ok(page.data@[0]@),
        ),
        compression_level > 12 ==> pco_may_give_u32(values, 12, 8186, Ok(page.data@[0]@)),
{
    law_page_holds_u32(block.data@, values);
}

/// The buffer of a page compressed from 64 bit values decodes to every value
/// that the block holds, in order, and is an output that the compressor can
/// have for them at the level that the encoder was made at, or 12 if that is
/// lower, in chunks of at most 8186 values.
pub proof fn law_compressed_page_of_64_bits(
    compression_level: usize,
    encoder: PcodecMiniBlockEncoder,
    block: FixedWidthDataBlock,
    values: Seq<u64>,
    page: MiniBlockCompressed,
    encoding: CompressiveEncoding,
)
    requires
        call_ensures(
            PcodecMiniBlockEncoder::with_compression_level,
            (64, compression_level),
            encoder,
        ),
        block.num_values != 0,
        block.data@.len() == 8 * values.len(),
        forall|i: int|
            0 <= i < values.len() ==> #[trigger] values[i] as nat == EndianNat::<u8>::new_default(
                block.data@.subrange(8 * i, 8 * i + 8).map_values(|byte: u8| byte as int),
            ).to_nat(),
        call_ensures(
            PcodecMiniBlockEncoder::compress,
            (&encoder, DataBlock::FixedWidth(block)),
            Ok((page, encoding)),
        ),
    ensures
        pco_decoded_u64(page.data@[0]@) == Ok::<Seq<u64>, PcoError>(values),
        compression_level <= 12 ==> pco_may_give_u64(
            values,
            compression_level,
            8186,
            Ok(page.data@[0]@),
        ),
        compression_level > 12 ==> pco_may_give_u64(values, 12, 8186, Ok(page.data@[0]@)),
{
    law_page_holds_u64(block.data@, values);
}

} // verus!
