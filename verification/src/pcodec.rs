//! The mini-block encoder and decompressor.

use crate::block::{
    Compression, CompressiveEncoding, DataBlock, FixedWidthDataBlock, LanceBuffer, MiniBlockChunk,
    MiniBlockCompressed, Pcodec,
};
use crate::codec::{encodes, is_decoding, pcodec_decode, pcodec_encode, refuses};
use crate::error::Error;
use crate::streams::MAX_COMPRESSION_LEVEL;
use crate::value::Word;
use vstd::prelude::*;

verus! {

/// The compression level of an encoder that is made without one.
pub const DEFAULT_COMPRESSION_LEVEL: usize = 8;

/// The level that an encoder made at `compression_level` compresses with: that
/// level, or the highest one if that is lower.
pub open spec fn effective_level(compression_level: usize) -> usize {
    if compression_level <= MAX_COMPRESSION_LEVEL {
        compression_level
    } else {
        MAX_COMPRESSION_LEVEL
    }
}

/// The widths, in bits, of the values that Pcodec compresses.
pub open spec fn is_supported(bits_per_value: usize) -> bool {
    bits_per_value == 16 || bits_per_value == 32 || bits_per_value == 64
}

/// `stream` is a possible encoding of a page of values of a supported width,
/// and it decodes to them.
pub open spec fn page_encodes(
    bits_per_value: usize,
    page: Seq<u8>,
    compression_level: usize,
    stream: Seq<u8>,
) -> bool {
    if bits_per_value == 16 {
        encodes::<u16>(page, compression_level, stream)
    } else if bits_per_value == 32 {
        encodes::<u32>(page, compression_level, stream)
    } else {
        encodes::<u64>(page, compression_level, stream)
    }
}

/// `e` is a possible refusal to compress a page of values of a supported width.
pub open spec fn page_refuses(
    bits_per_value: usize,
    page: Seq<u8>,
    compression_level: usize,
    e: Error,
) -> bool {
    if bits_per_value == 16 {
        refuses::<u16>(page, compression_level, e)
    } else if bits_per_value == 32 {
        refuses::<u32>(page, compression_level, e)
    } else {
        refuses::<u64>(page, compression_level, e)
    }
}

/// Compresses a page of exactly `num_values` values of a width into a stream.
pub fn encode_page(bits_per_value: usize, page: &[u8], num_values: u64, compression_level: usize)
    -> (r: Result<Vec<u8>, Error>)
    requires
        is_supported(bits_per_value) ==> page@.len() == (num_values as usize) * (bits_per_value
            / 8),
    ensures
        r is Ok <==> is_supported(bits_per_value) && (compression_level <= MAX_COMPRESSION_LEVEL
            || page@.len() == 0),
        match r {
            Ok(stream) => page_encodes(bits_per_value, page@, compression_level, stream@),
            Err(e) => if is_supported(bits_per_value) {
                page_refuses(bits_per_value, page@, compression_level, e)
            } else {
                e == (Error::UnsupportedEncodingWidth { bits_per_value })
            },
        },
{
    match bits_per_value {
        16 => pcodec_encode::<u16>(page, num_values, compression_level),
        32 => pcodec_encode::<u32>(page, num_values, compression_level),
        64 => pcodec_encode::<u64>(page, num_values, compression_level),
        _ => Err(Error::UnsupportedEncodingWidth { bits_per_value }),
    }
}

/// `r` is the outcome of decoding `num_values` values of a supported width.
pub open spec fn page_decodes(
    bits_per_value: usize,
    stream: Seq<u8>,
    num_values: u64,
    r: Result<Seq<u8>, Error>,
) -> bool {
    if bits_per_value == 16 {
        is_decoding::<u16>(stream, num_values, r)
    } else if bits_per_value == 32 {
        is_decoding::<u32>(stream, num_values, r)
    } else {
        is_decoding::<u64>(stream, num_values, r)
    }
}

/// Recovers a page of `num_values` values of a width from a stream.
pub fn decode_page(bits_per_value: usize, stream: &[u8], num_values: u64) -> (r: Result<
    Vec<u8>,
    Error,
>)
    ensures
        match r {
            Ok(page) => is_supported(bits_per_value) && page_decodes(
                bits_per_value,
                stream@,
                num_values,
                Ok(page@),
            ),
            Err(e) => if is_supported(bits_per_value) {
                page_decodes(bits_per_value, stream@, num_values, Err(e))
            } else {
                e == (Error::UnsupportedDecodingWidth { bits_per_value })
            },
        },
{
    match bits_per_value {
        16 => pcodec_decode::<u16>(stream, num_values),
        32 => pcodec_decode::<u32>(stream, num_values),
        64 => pcodec_decode::<u64>(stream, num_values),
        _ => Err(Error::UnsupportedDecodingWidth { bits_per_value }),
    }
}

/// A page that decodes without error takes exactly the bytes of the values
/// that were asked for.
pub proof fn law_decoded_length(
    bits_per_value: usize,
    stream: Seq<u8>,
    num_values: u64,
    page: Seq<u8>,
)
    requires
        is_supported(bits_per_value),
        page_decodes(bits_per_value, stream, num_values, Ok(page)),
    ensures
        page.len() == (num_values as usize) * (bits_per_value / 8),
{
    let count = (num_values as usize) as nat;
    if bits_per_value == 16 {
        assert(page.len() == <u16 as Word>::width() * count);
        assert(bits_per_value / 8 == 2);
    } else if bits_per_value == 32 {
        assert(page.len() == <u32 as Word>::width() * count);
        assert(bits_per_value / 8 == 4);
    } else {
        assert(page.len() == <u64 as Word>::width() * count);
        assert(bits_per_value / 8 == 8);
    }
}

/// The description of a Pcodec encoding.
pub open spec fn pcodec_encoding(
    bits_per_value: usize,
    compression_level: usize,
) -> CompressiveEncoding {
    CompressiveEncoding {
        compression: Some(
            Compression::Pcodec(
                Pcodec {
                    bits_per_value: bits_per_value as u64,
                    compression_level: Some(compression_level as u32),
                },
            ),
        ),
    }
}

/// The page without values.
pub open spec fn is_empty_page(page: MiniBlockCompressed) -> bool {
    page.data@.len() == 0 && page.chunks@.len() == 0 && page.num_values == 0
}

/// The page that is a single chunk of a single buffer that holds `stream`.
/// The size of the buffer is recorded in 32 bits.
pub open spec fn is_single_chunk(
    page: MiniBlockCompressed,
    stream: Seq<u8>,
    num_values: u64,
) -> bool {
    &&& page.data@.len() == 1
    &&& page.data@[0]@ == stream
    &&& page.chunks@.len() == 1
    &&& page.chunks@[0].buffer_sizes@ == seq![(stream.len() % 0x1_0000_0000) as u32]
    &&& page.chunks@[0].log_num_values == 0
    &&& page.num_values == num_values
}

/// `r` is the outcome of compressing a block into a page.
pub open spec fn is_compressed(
    bits_per_value: usize,
    compression_level: usize,
    block: DataBlock,
    r: Result<(MiniBlockCompressed, CompressiveEncoding), Error>,
) -> bool {
    match block {
        DataBlock::FixedWidth(block) => if block.num_values == 0 {
            &&& r matches Ok((page, encoding))
            &&& is_empty_page(page)
            &&& encoding == pcodec_encoding(bits_per_value, compression_level)
        } else if is_supported(bits_per_value) {
            &&& r matches Ok((page, encoding))
            &&& is_single_chunk(page, page.data@[0]@, block.num_values)
            &&& page_encodes(bits_per_value, block.data@, compression_level, page.data@[0]@)
            &&& encoding == pcodec_encoding(bits_per_value, compression_level)
        } else {
            r == Err::<(MiniBlockCompressed, CompressiveEncoding), Error>(
                Error::UnsupportedEncodingWidth { bits_per_value },
            )
        },
        DataBlock::Other => r == Err::<(MiniBlockCompressed, CompressiveEncoding), Error>(
            Error::NotFixedWidth,
        ),
    }
}

/// `block` is the fixed-width block of these bytes.
pub open spec fn is_block_of(
    block: DataBlock,
    bits_per_value: usize,
    num_values: u64,
    bytes: Seq<u8>,
) -> bool {
    &&& block matches DataBlock::FixedWidth(block)
    &&& block.data@ == bytes
    &&& block.bits_per_value == bits_per_value
    &&& block.num_values == num_values
}

/// `r` is the outcome of recovering a block of `num_values` values from the
/// buffers of a page.
pub open spec fn is_decompressed(
    bits_per_value: usize,
    data: Seq<LanceBuffer>,
    num_values: u64,
    r: Result<DataBlock, Error>,
) -> bool {
    if num_values == 0 {
        r matches Ok(block) && is_block_of(block, bits_per_value, 0, Seq::<u8>::empty())
    } else if data.len() != 1 {
        r == Err::<DataBlock, Error>(Error::BufferCount { got: data.len() as usize })
    } else if !is_supported(bits_per_value) {
        r == Err::<DataBlock, Error>(Error::UnsupportedDecodingWidth { bits_per_value })
    } else {
        match r {
            Ok(block) => {
                &&& block matches DataBlock::FixedWidth(fixed)
                &&& page_decodes(bits_per_value, data[0]@, num_values, Ok(fixed.data@))
                &&& is_block_of(block, bits_per_value, num_values, fixed.data@)
            },
            Err(e) => page_decodes(bits_per_value, data[0]@, num_values, Err(e)),
        }
    }
}

/// A Pcodec encoder for fixed-width values.
#[derive(Debug)]
pub struct PcodecMiniBlockEncoder {
    bits_per_value: usize,
    compression_level: usize,
}

impl Clone for PcodecMiniBlockEncoder {
    fn clone(&self) -> (encoder: Self)
        ensures
            encoder == *self,
    {
        proof {
            use_type_invariant(self);
        }
        Self { bits_per_value: self.bits_per_value, compression_level: self.compression_level }
    }
}

impl PcodecMiniBlockEncoder {
    /// The bits in the values that the encoder takes.
    pub closed spec fn bits(self) -> usize {
        self.bits_per_value
    }

    /// The compression level of the encoder.
    pub closed spec fn level(self) -> usize {
        self.compression_level
    }

    /// Every encoder has a level that the compressor accepts.
    #[verifier::type_invariant]
    spec fn has_valid_level(self) -> bool {
        self.compression_level <= MAX_COMPRESSION_LEVEL
    }

    /// An encoder at the default compression level, for values of a supported
    /// width.
    pub fn new(bits_per_value: usize) -> (encoder: Self)
        requires
            is_supported(bits_per_value),
        ensures
            encoder.bits() == bits_per_value,
            encoder.level() == DEFAULT_COMPRESSION_LEVEL,
    {
        Self::with_compression_level(bits_per_value, DEFAULT_COMPRESSION_LEVEL)
    }

    /// An encoder at a compression level, or at the highest one if that is
    /// lower, for values of a supported width.
    pub fn with_compression_level(bits_per_value: usize, compression_level: usize) -> (encoder:
        Self)
        requires
            is_supported(bits_per_value),
        ensures
            encoder.bits() == bits_per_value,
            encoder.level() == effective_level(compression_level),
    {
        Self {
            bits_per_value,
            compression_level: if compression_level <= MAX_COMPRESSION_LEVEL {
                compression_level
            } else {
                MAX_COMPRESSION_LEVEL
            },
        }
    }

    /// The description of the encoder's output.
    fn encoding(&self) -> (encoding: CompressiveEncoding)
        ensures
            encoding == pcodec_encoding(self.bits(), self.level()),
    {
        proof {
            use_type_invariant(self);
        }
        CompressiveEncoding {
            compression: Some(
                Compression::Pcodec(
                    Pcodec {
                        bits_per_value: self.bits_per_value as u64,
                        compression_level: Some(self.compression_level as u32),
                    },
                ),
            ),
        }
    }

    /// Packs a stream as a page of a single chunk that contains all values.
    pub fn package(&self, compressed: Vec<u8>, num_values: u64) -> (r: (
        MiniBlockCompressed,
        CompressiveEncoding,
    ))
        ensures
            is_single_chunk(r.0, compressed@, num_values),
            r.1 == pcodec_encoding(self.bits(), self.level()),
    {
        let len: u64 = compressed.len() as u64;
        let size: u32 = (len % 0x1_0000_0000) as u32;
        let buffer_sizes: Vec<u32> = vec![size];
        assert(buffer_sizes@ =~= seq![(compressed@.len() % 0x1_0000_0000) as u32]);
        // The last chunk of the page, as it contains all values.
        let chunk = MiniBlockChunk { buffer_sizes, log_num_values: 0 };
        (
            MiniBlockCompressed {
                data: vec![LanceBuffer::from(compressed)],
                chunks: vec![chunk],
                num_values,
            },
            self.encoding(),
        )
    }

    /// Compresses a block into a page of a single chunk.
    ///
    /// The data of a block with values has to hold exactly as many of the
    /// encoder's width as the block counts, where that is a supported one.
    pub fn compress(&self, page: DataBlock) -> (r: Result<
        (MiniBlockCompressed, CompressiveEncoding),
        Error,
    >)
        requires
            page matches DataBlock::FixedWidth(block) ==> block.num_values != 0 && is_supported(
                self.bits(),
            ) ==> block.data@.len() == (block.num_values as usize) * (self.bits() / 8),
        ensures
            is_compressed(self.bits(), self.level(), page, r),
    {
        proof {
            use_type_invariant(self);
        }
        match page {
            DataBlock::FixedWidth(data) => {
                let num_values = data.num_values;
                if num_values == 0 {
                    return Ok(
                        (
                            MiniBlockCompressed {
                                data: Vec::new(),
                                chunks: Vec::new(),
                                num_values: 0,
                            },
                            self.encoding(),
                        ),
                    );
                }
                match encode_page(
                    self.bits_per_value,
                    data.data.as_ref(),
                    num_values,
                    self.compression_level,
                ) {
                    Ok(compressed) => Ok(self.package(compressed, num_values)),
                    Err(e) => Err(e),
                }
            },
            DataBlock::Other => Err(Error::NotFixedWidth),
        }
    }
}

/// A Pcodec decompressor for fixed-width values.
#[derive(Debug)]
pub struct PcodecMiniBlockDecompressor {
    bits_per_value: usize,
}

impl PcodecMiniBlockDecompressor {
    /// The bits in the values that the decompressor gives.
    pub closed spec fn bits(self) -> usize {
        self.bits_per_value
    }

    /// A decompressor for values of a supported width.
    pub fn new(bits_per_value: usize) -> (decompressor: Self)
        requires
            is_supported(bits_per_value),
        ensures
            decompressor.bits() == bits_per_value,
    {
        Self { bits_per_value }
    }

    /// The whole bytes in a value.
    pub fn bytes_per_value(&self) -> (bytes: usize)
        ensures
            bytes == self.bits() / 8,
    {
        self.bits_per_value / 8
    }

    /// Makes a block of decompressed bytes, if there are as many as the
    /// number of values asks for.
    pub fn assemble(&self, decompressed: Vec<u8>, num_values: u64) -> (r: Result<DataBlock, Error>)
        requires
            (num_values as usize) * (self.bits() / 8) <= usize::MAX,
        ensures
            ({
                let expected = (num_values as usize) * (self.bits() / 8);
                if decompressed@.len() == expected {
                    r matches Ok(block) && is_block_of(
                        block,
                        self.bits(),
                        num_values,
                        decompressed@,
                    )
                } else {
                    r == Err::<DataBlock, Error>(
                        Error::ByteCount {
                            expected_bytes: expected as usize,
                            got_bytes: decompressed@.len() as usize,
                        },
                    )
                }
            }),
    {
        let expected_bytes: usize = num_values as usize * self.bytes_per_value();
        if decompressed.len() != expected_bytes {
            return Err(Error::ByteCount { expected_bytes, got_bytes: decompressed.len() });
        }
        Ok(
            DataBlock::FixedWidth(
                FixedWidthDataBlock {
                    data: LanceBuffer::from(decompressed),
                    bits_per_value: self.bits_per_value as u64,
                    num_values,
                },
            ),
        )
    }

    /// Recovers a block of `num_values` values from the buffers of a page.
    pub fn decompress(&self, data: Vec<LanceBuffer>, num_values: u64) -> (r: Result<
        DataBlock,
        Error,
    >)
        ensures
            is_decompressed(self.bits(), data@, num_values, r),
    {
        if num_values == 0 {
            return Ok(
                DataBlock::FixedWidth(
                    FixedWidthDataBlock {
                        data: LanceBuffer::empty(),
                        bits_per_value: self.bits_per_value as u64,
                        num_values: 0,
                    },
                ),
            );
        }
        if data.len() != 1 {
            return Err(Error::BufferCount { got: data.len() });
        }
        match decode_page(self.bits_per_value, data[0].as_ref(), num_values) {
            Ok(decompressed) => {
                proof {
                    law_decoded_length(self.bits(), data@[0]@, num_values, decompressed@);
                    assert(decompressed@.len() == decompressed.len());
                }
                self.assemble(decompressed, num_values)
            },
            Err(e) => Err(e),
        }
    }
}

} // verus!
