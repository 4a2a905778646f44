//! What holds of compression and decompression together.
//!
//! The laws in the modules below speak of calls: of whatever a call can return
//! for its arguments, as the fields of the result show it.

use crate::block::{
    CompressiveEncoding, DataBlock, FixedWidthDataBlock, LanceBuffer, MiniBlockCompressed,
};
use crate::codec::{encodes, is_decoding};
use crate::error::Error;
use crate::pcodec::{
    effective_level, is_block_of, is_compressed, is_decompressed, is_supported, page_decodes,
    page_encodes, PcodecMiniBlockEncoder,
};
use crate::streams::MAX_COMPRESSION_LEVEL;
use crate::value::{
    law_page_is_unique, lemma_page_of_count, lemma_page_of_its_values, values_of, Word,
};
use vstd::prelude::*;

pub mod decompressor;
pub mod encoder;
pub mod layout;
pub mod messages;
pub mod streams;

verus! {

/// A page decodes, at the count of its values, to itself and nothing else.
pub proof fn lemma_decodes_to_itself<T: Word>(
    page: Seq<u8>,
    compression_level: usize,
    stream: Seq<u8>,
    num_values: u64,
    r: Result<Seq<u8>, Error>,
)
    requires
        page.len() == T::width() * (num_values as usize),
        encodes::<T>(page, compression_level, stream),
        is_decoding::<T>(stream, num_values, r),
    ensures
        r == Ok::<Seq<u8>, Error>(page),
{
    lemma_page_of_count::<T>(page, num_values as usize as nat);
    if let Ok(other) = r {
        law_page_is_unique::<T>(page, other, values_of::<T>(page));
    }
}

/// The same for a width in bits.
proof fn lemma_page_decodes_to_itself(
    bits_per_value: usize,
    page: Seq<u8>,
    compression_level: usize,
    stream: Seq<u8>,
    num_values: u64,
    r: Result<Seq<u8>, Error>,
)
    requires
        is_supported(bits_per_value),
        page.len() == (num_values as usize) * (bits_per_value / 8),
        page_encodes(bits_per_value, page, compression_level, stream),
        page_decodes(bits_per_value, stream, num_values, r),
    ensures
        r == Ok::<Seq<u8>, Error>(page),
{
    if bits_per_value == 16 {
        lemma_decodes_to_itself::<u16>(page, compression_level, stream, num_values, r);
    } else if bits_per_value == 32 {
        lemma_decodes_to_itself::<u32>(page, compression_level, stream, num_values, r);
    } else {
        lemma_decodes_to_itself::<u64>(page, compression_level, stream, num_values, r);
    }
}

/// Compression is lossless: at every compression level, what a decompressor
/// of the same width recovers from a compressed block is that block, byte for
/// byte.
pub proof fn law_round_trip(
    bits_per_value: usize,
    compression_level: usize,
    block: FixedWidthDataBlock,
    page: MiniBlockCompressed,
    encoding: CompressiveEncoding,
    r: Result<DataBlock, Error>,
)
    requires
        block.data@.len() == (block.num_values as usize) * (bits_per_value / 8),
        is_compressed(
            bits_per_value,
            compression_level,
            DataBlock::FixedWidth(block),
            Ok((page, encoding)),
        ),
        is_decompressed(bits_per_value, page.data@, page.num_values, r),
    ensures
        r matches Ok(recovered) && is_block_of(
            recovered,
            bits_per_value,
            block.num_values,
            block.data@,
        ),
        r matches Ok(DataBlock::FixedWidth(recovered)) && {
            &&& recovered.data@ == block.data@
            &&& recovered.num_values == block.num_values
            &&& recovered.bits_per_value == bits_per_value
        },
{
    if block.num_values == 0 {
        let count = block.num_values as usize as int;
        let width = (bits_per_value / 8) as int;
        assert(count * width == 0) by (nonlinear_arith)
            requires
                count == 0,
        ;
        assert(block.data@ =~= Seq::<u8>::empty());
    } else {
        let stream = page.data@[0]@;
        match r {
            Ok(recovered) => {
                lemma_page_decodes_to_itself(
                    bits_per_value,
                    block.data@,
                    compression_level,
                    stream,
                    block.num_values,
                    Ok(recovered->FixedWidth_0.data@),
                );
            },
            Err(e) => {
                lemma_page_decodes_to_itself(
                    bits_per_value,
                    block.data@,
                    compression_level,
                    stream,
                    block.num_values,
                    Err(e),
                );
            },
        }
    }
}

/// A compressed block is refused where another number of values is asked of
/// it than it holds, other than none at all.
pub proof fn law_wrong_count_is_refused(
    bits_per_value: usize,
    compression_level: usize,
    block: FixedWidthDataBlock,
    page: MiniBlockCompressed,
    encoding: CompressiveEncoding,
    asked: u64,
    r: Result<DataBlock, Error>,
)
    requires
        block.num_values != 0,
        block.data@.len() == (block.num_values as usize) * (bits_per_value / 8),
        is_compressed(
            bits_per_value,
            compression_level,
            DataBlock::FixedWidth(block),
            Ok((page, encoding)),
        ),
        asked != 0,
        asked as usize != block.num_values as usize,
        is_decompressed(bits_per_value, page.data@, asked, r),
    ensures
        r == Err::<DataBlock, Error>(
            Error::ValueCount { expected: asked, got: block.num_values as usize },
        ),
{
    let count = block.num_values as usize as nat;
    if bits_per_value == 16 {
        lemma_page_of_count::<u16>(block.data@, count);
    } else if bits_per_value == 32 {
        lemma_page_of_count::<u32>(block.data@, count);
    } else {
        lemma_page_of_count::<u64>(block.data@, count);
    }
}

/// Streams tell pages apart: pages of whole values of one width that compress
/// to the same stream, at whatever levels, are the same.
pub proof fn law_stream_determines_page(
    bits_per_value: usize,
    a: Seq<u8>,
    level_of_a: usize,
    b: Seq<u8>,
    level_of_b: usize,
    stream: Seq<u8>,
)
    requires
        is_supported(bits_per_value),
        a.len() % (bits_per_value / 8) as nat == 0,
        b.len() % (bits_per_value / 8) as nat == 0,
        page_encodes(bits_per_value, a, level_of_a, stream),
        page_encodes(bits_per_value, b, level_of_b, stream),
    ensures
        a == b,
{
    if bits_per_value == 16 {
        lemma_page_of_its_values::<u16>(a);
        lemma_page_of_its_values::<u16>(b);
        law_page_is_unique::<u16>(a, b, values_of::<u16>(a));
    } else if bits_per_value == 32 {
        lemma_page_of_its_values::<u32>(a);
        lemma_page_of_its_values::<u32>(b);
        law_page_is_unique::<u32>(a, b, values_of::<u32>(a));
    } else {
        lemma_page_of_its_values::<u64>(a);
        lemma_page_of_its_values::<u64>(b);
        law_page_is_unique::<u64>(a, b, values_of::<u64>(a));
    }
}

/// What a block can be compressed into depends on its bytes and the count of
/// its values alone, for a given encoder: the width that the block itself
/// records has no part in it.
pub proof fn law_outcome_depends_on_bytes_and_count(
    bits_per_value: usize,
    compression_level: usize,
    a: FixedWidthDataBlock,
    b: FixedWidthDataBlock,
    r: Result<(MiniBlockCompressed, CompressiveEncoding), Error>,
)
    requires
        a.data@ == b.data@,
        a.num_values == b.num_values,
    ensures
        is_compressed(bits_per_value, compression_level, DataBlock::FixedWidth(a), r)
            <==> is_compressed(bits_per_value, compression_level, DataBlock::FixedWidth(b), r),
{
}

/// Compressing the same bytes and count twice with one encoder fails with the
/// same error, or gives pages of one shape and description that no
/// decompressor of the width tells apart. Only the bytes of the streams, and
/// so their sizes, can differ.
pub proof fn law_compressed_twice_reads_the_same(
    bits_per_value: usize,
    compression_level: usize,
    a: FixedWidthDataBlock,
    b: FixedWidthDataBlock,
    r: Result<(MiniBlockCompressed, CompressiveEncoding), Error>,
    s: Result<(MiniBlockCompressed, CompressiveEncoding), Error>,
    asked: u64,
    out: Result<DataBlock, Error>,
)
    requires
        a.data@ == b.data@,
        a.num_values == b.num_values,
        is_compressed(bits_per_value, compression_level, DataBlock::FixedWidth(a), r),
        is_compressed(bits_per_value, compression_level, DataBlock::FixedWidth(b), s),
    ensures
        match (r, s) {
            (Ok((p, described)), Ok((q, again))) => {
                &&& described == again
                &&& p.num_values == q.num_values
                &&& p.data@.len() == q.data@.len()
                &&& p.chunks@.len() == q.chunks@.len()
                &&& forall|i: int|
                    0 <= i < p.chunks@.len() ==> {
                        let chunk = #[trigger] p.chunks@[i];
                        &&& chunk.log_num_values == q.chunks@[i].log_num_values
                        &&& chunk.buffer_sizes@.len() == q.chunks@[i].buffer_sizes@.len()
                    }
                &&& is_decompressed(bits_per_value, p.data@, asked, out) <==> is_decompressed(
                    bits_per_value,
                    q.data@,
                    asked,
                    out,
                )
            },
            (Err(e), Err(f)) => e == f,
            _ => false,
        },
{
}

/// Every level from the highest one up acts as the highest one: an encoder made
/// at such a level and one of the same width made at the highest level record
/// the same level, and can compress any block into the same pages.
pub proof fn law_levels_above_the_highest_act_as_it(
    high: PcodecMiniBlockEncoder,
    highest: PcodecMiniBlockEncoder,
    compression_level: usize,
    block: DataBlock,
    r: Result<(MiniBlockCompressed, CompressiveEncoding), Error>,
)
    requires
        high.bits() == highest.bits(),
        compression_level >= MAX_COMPRESSION_LEVEL,
        high.level() == effective_level(compression_level),
        highest.level() == effective_level(MAX_COMPRESSION_LEVEL),
    ensures
        high.level() == highest.level(),
        is_compressed(high.bits(), high.level(), block, r) <==> is_compressed(
            highest.bits(),
            highest.level(),
            block,
            r,
        ),
{
}

/// Decompression is a function of the buffers and the count: two attempts on
/// the same input fail with the same error, or both give the same block.
pub proof fn law_decompression_is_deterministic(
    bits_per_value: usize,
    data: Seq<LanceBuffer>,
    num_values: u64,
    r: Result<DataBlock, Error>,
    s: Result<DataBlock, Error>,
)
    requires
        is_decompressed(bits_per_value, data, num_values, r),
        is_decompressed(bits_per_value, data, num_values, s),
    ensures
        r matches Err(e) ==> s == Err::<DataBlock, Error>(e),
        r matches Ok(block) ==> s matches Ok(again) && is_block_of(
            again,
            bits_per_value,
            num_values,
            block->FixedWidth_0.data@,
        ),
        r matches Ok(block) ==> {
            &&& block matches DataBlock::FixedWidth(x)
            &&& s matches Ok(DataBlock::FixedWidth(y))
            &&& x.data@ == y.data@
            &&& x.num_values == y.num_values
            &&& x.bits_per_value == y.bits_per_value
        },
{
    if num_values != 0 && data.len() == 1 && is_supported(bits_per_value) && r is Ok && s is Ok {
        let page = r->Ok_0->FixedWidth_0.data@;
        let again = s->Ok_0->FixedWidth_0.data@;
        let stream = data[0]@;
        if bits_per_value == 16 {
            law_page_is_unique::<u16>(page, again, <u16 as Word>::decoded(stream)->Ok_0);
        } else if bits_per_value == 32 {
            law_page_is_unique::<u32>(page, again, <u32 as Word>::decoded(stream)->Ok_0);
        } else {
            law_page_is_unique::<u64>(page, again, <u64 as Word>::decoded(stream)->Ok_0);
        }
    }
}

} // verus!
