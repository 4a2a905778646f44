//! Streams of the standalone Pcodec format, written and read by `pco`.
//!
//! The decoder is a function of the bytes of a stream, errors included. The
//! encoder is not a function of its arguments: it breaks ties between
//! candidate bases in the order of a hash map whose seed differs between
//! processes, and it weighs its choices in floating point. What is known of
//! its output is that it is one of the possible ones, and that it decodes to
//! the values. How long a stream is, or which of the possible ones it is, is
//! left unsaid.
//!
//! `pco` documents its compression as lossless, an invalid configuration as
//! the only error of `simple_compress`, corrupt or insufficient data as the
//! errors of `simple_decompress`, and that a decoder never panics, whatever
//! the bytes. Of unsigned integers, the default configuration writes classic
//! and integer multiple modes, with no, consecutive or lookback deltas.

use pco::errors::PcoError;
use pco::{ChunkConfig, PagingSpec};
use vstd::prelude::*;

verus! {

/// The error of a `pco` call: a kind and a message, carried as one value.
#[verifier::external_type_specification]
#[verifier::external_body]
pub struct ExPcoError(pco::errors::PcoError);

/// The most values that one chunk of a stream can hold.
pub const MAX_CHUNK_VALUES: usize = 16777216;

/// The highest compression level.
pub const MAX_COMPRESSION_LEVEL: usize = 12;

/// The values that `pco::standalone::simple_decompress` recovers from a stream
/// of `u16` values, or the error that it reports.
pub uninterp spec fn pco_decoded_u16(stream: Seq<u8>) -> Result<Seq<u16>, PcoError>;

/// `outcome`, a stream or an error, is one that
/// `pco::standalone::simple_compress` can give for these `u16` values, with
/// this compression level and this bound on the values in a chunk.
pub uninterp spec fn pco_may_give_u16(
    values: Seq<u16>,
    compression_level: usize,
    chunk_limit: usize,
    outcome: Result<Seq<u8>, PcoError>,
) -> bool;

/// The values that `pco::standalone::simple_decompress` recovers from a stream
/// of `u32` values, or the error that it reports.
pub uninterp spec fn pco_decoded_u32(stream: Seq<u8>) -> Result<Seq<u32>, PcoError>;

/// `outcome`, a stream or an error, is one that
/// `pco::standalone::simple_compress` can give for these `u32` values, with
/// this compression level and this bound on the values in a chunk.
pub uninterp spec fn pco_may_give_u32(
    values: Seq<u32>,
    compression_level: usize,
    chunk_limit: usize,
    outcome: Result<Seq<u8>, PcoError>,
) -> bool;

/// The values that `pco::standalone::simple_decompress` recovers from a stream
/// of `u64` values, or the error that it reports.
pub uninterp spec fn pco_decoded_u64(stream: Seq<u8>) -> Result<Seq<u64>, PcoError>;

/// `outcome`, a stream or an error, is one that
/// `pco::standalone::simple_compress` can give for these `u64` values, with
/// this compression level and this bound on the values in a chunk.
pub uninterp spec fn pco_may_give_u64(
    values: Seq<u64>,
    compression_level: usize,
    chunk_limit: usize,
    outcome: Result<Seq<u8>, PcoError>,
) -> bool;

/// Calls `pco::standalone::simple_compress` on `u16` values, with the default
/// configuration but for the compression level and the bound on the values in
/// a chunk.
///
/// Claims that it fails exactly on a level above the highest one, which it
/// checks only where there is a value to compress, that the stream or the error
/// is one of the possible outcomes for all of these arguments, and that a stream
/// is lossless.
#[verifier::external_body]
pub(crate) fn compress_u16(
    values: &[u16],
    compression_level: usize,
    chunk_limit: usize,
) -> (r: Result<Vec<u8>, PcoError>)
    requires
        0 < chunk_limit <= MAX_CHUNK_VALUES,
    ensures
        r is Ok <==> compression_level <= MAX_COMPRESSION_LEVEL || values@.len() == 0,
        r matches Ok(stream) ==> pco_may_give_u16(
            values@,
            compression_level,
            chunk_limit,
            Ok(stream@),
        ),
        r matches Err(cause) ==> pco_may_give_u16(
            values@,
            compression_level,
            chunk_limit,
            Err(cause),
        ),
        r matches Ok(stream) ==> (pco_decoded_u16(stream@) matches Ok(decoded) && decoded
            == values@),
{
    let config = ChunkConfig::default().with_compression_level(
        compression_level,
    ).with_paging_spec(PagingSpec::EqualPagesUpTo(chunk_limit));
    pco::standalone::simple_compress(values, &config)
}

/// Calls `pco::standalone::simple_decompress` for `u16` values. Claims that any
/// bytes give values or an error, and that either is a function of the bytes.
#[verifier::external_body]
pub(crate) fn decompress_u16(stream: &[u8]) -> (r: Result<Vec<u16>, PcoError>)
    ensures
        match r {
            Ok(values) => pco_decoded_u16(stream@) == Ok::<Seq<u16>, PcoError>(values@),
            Err(cause) => pco_decoded_u16(stream@) == Err::<Seq<u16>, PcoError>(cause),
        },
{
    pco::standalone::simple_decompress::<u16>(stream)
}

/// Calls `pco::standalone::simple_compress` on `u32` values, with the default
/// configuration but for the compression level and the bound on the values in
/// a chunk.
///
/// Claims that it fails exactly on a level above the highest one, which it
/// checks only where there is a value to compress, that the stream or the error
/// is one of the possible outcomes for all of these arguments, and that a stream
/// is lossless.
#[verifier::external_body]
pub(crate) fn compress_u32(
    values: &[u32],
    compression_level: usize,
    chunk_limit: usize,
) -> (r: Result<Vec<u8>, PcoError>)
    requires
        0 < chunk_limit <= MAX_CHUNK_VALUES,
    ensures
        r is Ok <==> compression_level <= MAX_COMPRESSION_LEVEL || values@.len() == 0,
        r matches Ok(stream) ==> pco_may_give_u32(
            values@,
            compression_level,
            chunk_limit,
            Ok(stream@),
        ),
        r matches Err(cause) ==> pco_may_give_u32(
            values@,
            compression_level,
            chunk_limit,
            Err(cause),
        ),
        r matches Ok(stream) ==> (pco_decoded_u32(stream@) matches Ok(decoded) && decoded
            == values@),
{
    let config = ChunkConfig::default().with_compression_level(
        compression_level,
    ).with_paging_spec(PagingSpec::EqualPagesUpTo(chunk_limit));
    pco::standalone::simple_compress(values, &config)
}

/// Calls `pco::standalone::simple_decompress` for `u32` values. Claims that any
/// bytes give values or an error, and that either is a function of the bytes.
#[verifier::external_body]
pub(crate) fn decompress_u32(stream: &[u8]) -> (r: Result<Vec<u32>, PcoError>)
    ensures
        match r {
            Ok(values) => pco_decoded_u32(stream@) == Ok::<Seq<u32>, PcoError>(values@),
            Err(cause) => pco_decoded_u32(stream@) == Err::<Seq<u32>, PcoError>(cause),
        },
{
    pco::standalone::simple_decompress::<u32>(stream)
}

/// Calls `pco::standalone::simple_compress` on `u64` values, with the default
/// configuration but for the compression level and the bound on the values in
/// a chunk.
///
/// Claims that it fails exactly on a level above the highest one, which it
/// checks only where there is a value to compress, that the stream or the error
/// is one of the possible outcomes for all of these arguments, and that a stream
/// is lossless.
#[verifier::external_body]
pub(crate) fn compress_u64(
    values: &[u64],
    compression_level: usize,
    chunk_limit: usize,
) -> (r: Result<Vec<u8>, PcoError>)
    requires
        0 < chunk_limit <= MAX_CHUNK_VALUES,
    ensures
        r is Ok <==> compression_level <= MAX_COMPRESSION_LEVEL || values@.len() == 0,
        r matches Ok(stream) ==> pco_may_give_u64(
            values@,
            compression_level,
            chunk_limit,
            Ok(stream@),
        ),
        r matches Err(cause) ==> pco_may_give_u64(
            values@,
            compression_level,
            chunk_limit,
            Err(cause),
        ),
        r matches Ok(stream) ==> (pco_decoded_u64(stream@) matches Ok(decoded) && decoded
            == values@),
{
    let config = ChunkConfig::default().with_compression_level(
        compression_level,
    ).with_paging_spec(PagingSpec::EqualPagesUpTo(chunk_limit));
    pco::standalone::simple_compress(values, &config)
}

/// Calls `pco::standalone::simple_decompress` for `u64` values. Claims that any
/// bytes give values or an error, and that either is a function of the bytes.
#[verifier::external_body]
pub(crate) fn decompress_u64(stream: &[u8]) -> (r: Result<Vec<u64>, PcoError>)
    ensures
        match r {
            Ok(values) => pco_decoded_u64(stream@) == Ok::<Seq<u64>, PcoError>(values@),
            Err(cause) => pco_decoded_u64(stream@) == Err::<Seq<u64>, PcoError>(cause),
        },
{
    pco::standalone::simple_decompress::<u64>(stream)
}

} // verus!
