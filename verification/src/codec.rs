//! Pages of one value type, to streams and back.

use crate::error::Error;
use crate::streams::MAX_COMPRESSION_LEVEL;
use crate::value::{is_page_of, lemma_page_of_count, values_of, PcodecValue, Word};
use pco::errors::PcoError;
use vstd::prelude::*;

verus! {

/// The bytes in a mini-block chunk, which bounds the values in a chunk of the
/// stream too.
pub const MAX_MINIBLOCK_BYTES: usize = 8 * 1024 - 6;

/// `stream` is a possible encoding of the values of `page` at a compression
/// level, and it decodes to them.
pub open spec fn encodes<T: Word>(page: Seq<u8>, compression_level: usize, stream: Seq<u8>) -> bool {
    &&& T::may_give(values_of::<T>(page), compression_level, MAX_MINIBLOCK_BYTES, Ok(stream))
    &&& T::decoded(stream) == Ok::<Seq<T>, PcoError>(values_of::<T>(page))
}

/// `e` is a possible refusal to compress the values of `page` at a compression
/// level.
pub open spec fn refuses<T: Word>(page: Seq<u8>, compression_level: usize, e: Error) -> bool {
    e matches Error::CompressionFailed { cause } && T::may_give(
        values_of::<T>(page),
        compression_level,
        MAX_MINIBLOCK_BYTES,
        Err(cause),
    )
}

/// Compresses a page of exactly `_num_values` values into a stream.
pub fn pcodec_encode<T: PcodecValue>(data: &[u8], _num_values: u64, compression_level: usize) -> (r:
    Result<Vec<u8>, Error>)
    requires
        data@.len() == T::width() * (_num_values as usize),
    ensures
        r is Ok <==> compression_level <= MAX_COMPRESSION_LEVEL || data@.len() == 0,
        match r {
            Ok(stream) => encodes::<T>(data@, compression_level, stream@),
            Err(e) => refuses::<T>(data@, compression_level, e),
        },
{
    proof {
        T::lemma_width();
        lemma_page_of_count::<T>(data@, _num_values as usize as nat);
    }
    let values = T::from_page(data);
    proof {
        assert(T::width() * values@.len() == 0 <==> values@.len() == 0) by (nonlinear_arith)
            requires
                T::width() > 0,
        ;
    }
    match T::compress(values.as_slice(), compression_level, MAX_MINIBLOCK_BYTES) {
        Ok(stream) => Ok(stream),
        Err(cause) => Err(Error::CompressionFailed { cause }),
    }
}

/// Lays decoded values out as a page, if there are as many as expected.
pub fn pcodec_page<T: PcodecValue>(values: Vec<T>, num_values: u64) -> (r: Result<Vec<u8>, Error>)
    ensures
        match r {
            Ok(page) => values@.len() == num_values as usize && is_page_of(page@, values@),
            Err(e) => values@.len() != num_values as usize && e == (Error::ValueCount {
                expected: num_values,
                got: values@.len() as usize,
            }),
        },
{
    if values.len() != num_values as usize {
        return Err(Error::ValueCount { expected: num_values, got: values.len() });
    }
    Ok(T::to_page(values.as_slice()))
}

/// What `pcodec_decode` returns for a stream.
pub open spec fn is_decoding<T: Word>(
    stream: Seq<u8>,
    num_values: u64,
    r: Result<Seq<u8>, Error>,
) -> bool {
    match T::decoded(stream) {
        Err(cause) => r == Err::<Seq<u8>, Error>(Error::DecompressionFailed { cause }),
        Ok(values) => if values.len() == num_values as usize {
            r matches Ok(page) && is_page_of(page, values)
        } else {
            r == Err::<Seq<u8>, Error>(
                Error::ValueCount { expected: num_values, got: values.len() as usize },
            )
        },
    }
}

/// Recovers a page from a stream that has to hold `num_values` values.
pub fn pcodec_decode<T: PcodecValue>(compressed: &[u8], num_values: u64) -> (r: Result<
    Vec<u8>,
    Error,
>)
    ensures
        match r {
            Ok(page) => is_decoding::<T>(compressed@, num_values, Ok(page@)),
            Err(e) => is_decoding::<T>(compressed@, num_values, Err(e)),
        },
{
    match T::decompress(compressed) {
        Ok(values) => pcodec_page(values, num_values),
        Err(cause) => Err(Error::DecompressionFailed { cause }),
    }
}

} // verus!
