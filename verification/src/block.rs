//! Blocks of data, and what they are compressed into.

use vstd::prelude::*;

verus! {

/// A buffer of bytes.
#[derive(Debug, PartialEq, Eq)]
pub struct LanceBuffer {
    bytes: Vec<u8>,
}

impl View for LanceBuffer {
    type V = Seq<u8>;

    closed spec fn view(&self) -> Seq<u8> {
        self.bytes@
    }
}

impl LanceBuffer {
    /// The buffer that holds nothing.
    pub fn empty() -> (buffer: LanceBuffer)
        ensures
            buffer@ == Seq::<u8>::empty(),
    {
        LanceBuffer { bytes: Vec::new() }
    }

    /// The buffer that holds `bytes`.
    pub fn from(bytes: Vec<u8>) -> (buffer: LanceBuffer)
        ensures
            buffer@ == bytes@,
    {
        LanceBuffer { bytes }
    }

    /// The number of bytes in the buffer.
    pub fn len(&self) -> (len: usize)
        ensures
            len == self@.len(),
    {
        self.bytes.len()
    }

    /// The bytes in the buffer.
    pub fn as_ref(&self) -> (bytes: &[u8])
        ensures
            bytes@ == self@,
    {
        self.bytes.as_slice()
    }
}

/// Values that all take the same number of bits, one after the other.
#[derive(Debug, PartialEq, Eq)]
pub struct FixedWidthDataBlock {
    /// The bytes of the values.
    pub data: LanceBuffer,
    /// The bits in a value.
    pub bits_per_value: u64,
    /// The number of values.
    pub num_values: u64,
}

/// A block of data.
#[derive(Debug, PartialEq, Eq)]
pub enum DataBlock {
    /// A block of fixed-width values.
    FixedWidth(FixedWidthDataBlock),
    /// A block in any other layout, of which the codec reads nothing.
    Other,
}

/// One chunk of a compressed page.
#[derive(Debug, PartialEq, Eq)]
pub struct MiniBlockChunk {
    /// The bytes that the chunk takes in each buffer.
    pub buffer_sizes: Vec<u32>,
    /// The base 2 logarithm of the number of values in the chunk, or 0 for the
    /// last chunk of a page, which holds the values that are left.
    pub log_num_values: u8,
}

/// A compressed page.
#[derive(Debug, PartialEq, Eq)]
pub struct MiniBlockCompressed {
    /// The buffers of the page.
    pub data: Vec<LanceBuffer>,
    /// The chunks of the page.
    pub chunks: Vec<MiniBlockChunk>,
    /// The number of values in the page.
    pub num_values: u64,
}

/// The parameters of a Pcodec encoding.
#[derive(Debug, Clone, Copy, PartialEq, Eq)]
pub struct Pcodec {
    /// The bits in a value.
    pub bits_per_value: u64,
    /// The compression level that the page was written with.
    pub compression_level: Option<u32>,
}

/// How a page is compressed.
#[derive(Debug, Clone, Copy, PartialEq, Eq)]
pub enum Compression {
    /// By Pcodec.
    Pcodec(Pcodec),
}

/// The description of an encoding that is stored beside the data.
#[derive(Debug, Clone, Copy, PartialEq, Eq)]
pub struct CompressiveEncoding {
    /// The compression, where there is any.
    pub compression: Option<Compression>,
}

} // verus!
