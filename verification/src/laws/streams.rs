//! What goes into a stream, and what comes out of it, at each width.

use crate::codec::{pcodec_decode, pcodec_encode, pcodec_page};
use crate::error::Error;
use crate::laws::layout::{law_page_holds_u16, law_page_holds_u32, law_page_holds_u64};
use crate::pcodec::{decode_page, encode_page};
use crate::streams::{
    pco_decoded_u16, pco_decoded_u32, pco_decoded_u64, pco_may_give_u16, pco_may_give_u32,
    pco_may_give_u64,
};
use crate::value::PcodecValue;
use pco::errors::PcoError;
use vstd::endian::EndianNat;
use vstd::prelude::*;

verus! {

/// A page can be encoded whenever it takes the bytes of the values counted.
pub proof fn law_whole_pages_are_accepted(
    bits_per_value: usize,
    page: &[u8],
    num_values: u64,
    compression_level: usize,
)
    requires
        bits_per_value == 16 || bits_per_value == 32 || bits_per_value == 64,
        8 * page@.len() == bits_per_value * (num_values as usize),
    ensures
        call_requires(encode_page, (bits_per_value, page, num_values, compression_level)),
        bits_per_value == 16 ==> call_requires(
            pcodec_encode::<u16>,
            (page, num_values, compression_level),
        ),
        bits_per_value == 32 ==> call_requires(
            pcodec_encode::<u32>,
            (page, num_values, compression_level),
        ),
        bits_per_value == 64 ==> call_requires(
            pcodec_encode::<u64>,
            (page, num_values, compression_level),
        ),
{
    let count = num_values as usize as int;
    if bits_per_value == 16 {
        assert(8 * page@.len() == 16 * count);
    } else if bits_per_value == 32 {
        assert(8 * page@.len() == 32 * count);
    } else {
        assert(8 * page@.len() == 64 * count);
    }
}

/// Bytes can be decoded whatever they are, and whatever count is asked for.
pub proof fn law_any_bytes_are_accepted(bits_per_value: usize, stream: &[u8], num_values: u64)
    ensures
        call_requires(decode_page, (bits_per_value, stream, num_values)),
        call_requires(pcodec_decode::<u16>, (stream, num_values)),
        call_requires(pcodec_decode::<u32>, (stream, num_values)),
        call_requires(pcodec_decode::<u64>, (stream, num_values)),
{
}

/// A page of values of any width other than 16, 32 or 64 bits is not encoded.
pub proof fn law_other_widths_are_not_encoded(
    bits_per_value: usize,
    page: &[u8],
    num_values: u64,
    compression_level: usize,
    r: Result<Vec<u8>, Error>,
)
    requires
        bits_per_value != 16,
        bits_per_value != 32,
        bits_per_value != 64,
        call_ensures(encode_page, (bits_per_value, page, num_values, compression_level), r),
    ensures
        r == Err::<Vec<u8>, Error>(Error::UnsupportedEncodingWidth { bits_per_value }),
{
}

/// A stream of values of any width other than 16, 32 or 64 bits is not decoded.
pub proof fn law_other_widths_are_not_decoded(
    bits_per_value: usize,
    stream: &[u8],
    num_values: u64,
    r: Result<Vec<u8>, Error>,
)
    requires
        bits_per_value != 16,
        bits_per_value != 32,
        bits_per_value != 64,
        call_ensures(decode_page, (bits_per_value, stream, num_values), r),
    ensures
        r == Err::<Vec<u8>, Error>(Error::UnsupportedDecodingWidth { bits_per_value }),
{
}

/// `u16` values compress, at any level up to 12, into a stream that decodes to
/// them and that the compressor can give for them, the level and the bound.
pub proof fn law_compressing_u16(
    values: &[u16],
    compression_level: usize,
    chunk_limit: usize,
    r: Result<Vec<u8>, PcoError>,
)
    requires
        call_ensures(
            <u16 as PcodecValue>::compress,
            (values, compression_level, chunk_limit),
            r,
        ),
    ensures
        r is Ok <==> compression_level <= 12 || values@.len() == 0,
        r matches Ok(stream) ==> pco_decoded_u16(stream@) == Ok::<Seq<u16>, PcoError>(values@),
        r matches Ok(stream) ==> pco_may_give_u16(
            values@,
            compression_level,
            chunk_limit,
            Ok(stream@),
        ),
        r matches Err(cause) ==> pco_may_give_u16(
            values@,
            compression_level,
            chunk_limit,
            Err(cause),
        ),
{
}

/// A stream of `u16` values gives the values or the error of the decoder.
pub proof fn law_decompressing_u16(stream: &[u8], r: Result<Vec<u16>, PcoError>)
    requires
        call_ensures(<u16 as PcodecValue>::decompress, (stream,), r),
    ensures
        match pco_decoded_u16(stream@) {
            Ok(values) => r matches Ok(decoded) && decoded@ == values,
            Err(cause) => r == Err::<Vec<u16>, PcoError>(cause),
        },
{
}

/// A page that holds `u16` values is encoded, at any level up to 12, as a stream
/// that decodes to exactly these values, in chunks of at most 8186 of them.
pub proof fn law_encoding_u16(
    data: &[u8],
    num_values: u64,
    compression_level: usize,
    values: Seq<u16>,
    r: Result<Vec<u8>, Error>,
)
    requires
        data@.len() == 2 * values.len(),
        forall|i: int|
            0 <= i < values.len() ==> #[trigger] values[i] as nat == EndianNat::<u8>::new_default(
                data@.subrange(2 * i, 2 * i + 2).map_values(|byte: u8| byte as int),
            ).to_nat(),
        call_ensures(pcodec_encode::<u16>, (data, num_values, compression_level), r),
    ensures
        r is Ok <==> compression_level <= 12 || values.len() == 0,
        r matches Ok(stream) ==> pco_decoded_u16(stream@) == Ok::<Seq<u16>, PcoError>(values),
        r matches Ok(stream) ==> pco_may_give_u16(
            values,
            compression_level,
            8186,
            Ok(stream@),
        ),
        r matches Err(e) ==> (e matches Error::CompressionFailed { cause } && pco_may_give_u16(
            values,
            compression_level,
            8186,
            Err(cause),
        )),
{
    law_page_holds_u16(data@, values);
}

/// The same of a page whose width is given as 16 bits.
pub proof fn law_encoding_page_of_16_bits(
    data: &[u8],
    num_values: u64,
    compression_level: usize,
    values: Seq<u16>,
    r: Result<Vec<u8>, Error>,
)
    requires
        data@.len() == 2 * values.len(),
        forall|i: int|
            0 <= i < values.len() ==> #[trigger] values[i] as nat == EndianNat::<u8>::new_default(
                data@.subrange(2 * i, 2 * i + 2).map_values(|byte: u8| byte as int),
            ).to_nat(),
        call_ensures(encode_page, (16, data, num_values, compression_level), r),
    ensures
        r is Ok <==> compression_level <= 12 || values.len() == 0,
        r matches Ok(stream) ==> pco_decoded_u16(stream@) == Ok::<Seq<u16>, PcoError>(values),
        r matches Ok(stream) ==> pco_may_give_u16(
            values,
            compression_level,
            8186,
            Ok(stream@),
        ),
        r matches Err(e) ==> (e matches Error::CompressionFailed { cause } && pco_may_give_u16(
            values,
            compression_level,
            8186,
            Err(cause),
        )),
{
    law_page_holds_u16(data@, values);
}

/// Decoded `u16` values become the page that holds all of them, if there are as
/// many as asked for, and are refused with both counts otherwise.
pub proof fn law_paging_u16(values: Vec<u16>, num_values: u64, r: Result<Vec<u8>, Error>)
    requires
        call_ensures(pcodec_page::<u16>, (values, num_values), r),
    ensures
        values@.len() != num_values as usize ==> r == Err::<Vec<u8>, Error>(
            Error::ValueCount { expected: num_values, got: values@.len() as usize },
        ),
        values@.len() == num_values as usize ==> {
            &&& r matches Ok(page)
            &&& page@.len() == 2 * values@.len()
            &&& forall|i: int|
                0 <= i < values@.len() ==> #[trigger] values@[i] as nat == EndianNat::<
                    u8,
                >::new_default(
                    page@.subrange(2 * i, 2 * i + 2).map_values(|byte: u8| byte as int),
                ).to_nat()
        },
{
    if let Ok(page) = r {
        law_page_holds_u16(page@, values@);
    }
}

/// A stream decodes to the page that holds all of its `u16` values, if there are
/// as many as asked for.
pub proof fn law_decoding_u16(stream: &[u8], num_values: u64, r: Result<Vec<u8>, Error>)
    requires
        call_ensures(pcodec_decode::<u16>, (stream, num_values), r),
    ensures
        match pco_decoded_u16(stream@) {
            Err(cause) => r == Err::<Vec<u8>, Error>(Error::DecompressionFailed { cause }),
            Ok(values) => if values.len() != num_values as usize {
                r == Err::<Vec<u8>, Error>(
                    Error::ValueCount { expected: num_values, got: values.len() as usize },
                )
            } else {
                &&& r matches Ok(page)
                &&& page@.len() == 2 * values.len()
                &&& forall|i: int|
                    0 <= i < values.len() ==> #[trigger] values[i] as nat == EndianNat::<
                        u8,
                    >::new_default(
                        page@.subrange(2 * i, 2 * i + 2).map_values(|byte: u8| byte as int),
                    ).to_nat()
            },
        },
{
    if let (Ok(values), Ok(page)) = (pco_decoded_u16(stream@), r) {
        law_page_holds_u16(page@, values);
    }
}

/// The same of a stream whose width is given as 16 bits.
pub proof fn law_decoding_page_of_16_bits(
    stream: &[u8],
    num_values: u64,
    r: Result<Vec<u8>, Error>,
)
    requires
        call_ensures(decode_page, (16, stream, num_values), r),
    ensures
        match pco_decoded_u16(stream@) {
            Err(cause) => r == Err::<Vec<u8>, Error>(Error::DecompressionFailed { cause }),
            Ok(values) => if values.len() != num_values as usize {
                r == Err::<Vec<u8>, Error>(
                    Error::ValueCount { expected: num_values, got: values.len() as usize },
                )
            } else {
                &&& r matches Ok(page)
                &&& page@.len() == 2 * values.len()
                &&& forall|i: int|
                    0 <= i < values.len() ==> #[trigger] values[i] as nat == EndianNat::<
                        u8,
                    >::new_default(
                        page@.subrange(2 * i, 2 * i + 2).map_values(|byte: u8| byte as int),
                    ).to_nat()
            },
        },
{
    if let (Ok(values), Ok(page)) = (pco_decoded_u16(stream@), r) {
        law_page_holds_u16(page@, values);
    }
}

/// `u32` values compress, at any level up to 12, into a stream that decodes to
/// them and that the compressor can give for them, the level and the bound.
pub proof fn law_compressing_u32(
    values: &[u32],
    compression_level: usize,
    chunk_limit: usize,
    r: Result<Vec<u8>, PcoError>,
)
    requires
        call_ensures(
            <u32 as PcodecValue>::compress,
            (values, compression_level, chunk_limit),
            r,
        ),
    ensures
        r is Ok <==> compression_level <= 12 || values@.len() == 0,
        r matches Ok(stream) ==> pco_decoded_u32(stream@) == Ok::<Seq<u32>, PcoError>(values@),
        r matches Ok(stream) ==> pco_may_give_u32(
            values@,
            compression_level,
            chunk_limit,
            Ok(stream@),
        ),
        r matches Err(cause) ==> pco_may_give_u32(
            values@,
            compression_level,
            chunk_limit,
            Err(cause),
        ),
{
}

/// A stream of `u32` values gives the values or the error of the decoder.
pub proof fn law_decompressing_u32(stream: &[u8], r: Result<Vec<u32>, PcoError>)
    requires
        call_ensures(<u32 as PcodecValue>::decompress, (stream,), r),
    ensures
        match pco_decoded_u32(stream@) {
            Ok(values) => r matches Ok(decoded) && decoded@ == values,
            Err(cause) => r == Err::<Vec<u32>, PcoError>(cause),
        },
{
}

/// A page that holds `u32` values is encoded, at any level up to 12, as a stream
/// that decodes to exactly these values, in chunks of at most 8186 of them.
pub proof fn law_encoding_u32(
    data: &[u8],
    num_values: u64,
    compression_level: usize,
    values: Seq<u32>,
    r: Result<Vec<u8>, Error>,
)
    requires
        data@.len() == 4 * values.len(),
        forall|i: int|
            0 <= i < values.len() ==> #[trigger] values[i] as nat == EndianNat::<u8>::new_default(
                data@.subrange(4 * i, 4 * i + 4).map_values(|byte: u8| byte as int),
            ).to_nat(),
        call_ensures(pcodec_encode::<u32>, (data, num_values, compression_level), r),
    ensures
        r is Ok <==> compression_level <= 12 || values.len() == 0,
        r matches Ok(stream) ==> pco_decoded_u32(stream@) == Ok::<Seq<u32>, PcoError>(values),
        r matches Ok(stream) ==> pco_may_give_u32(
            values,
            compression_level,
            8186,
            Ok(stream@),
        ),
        r matches Err(e) ==> (e matches Error::CompressionFailed { cause } && pco_may_give_u32(
            values,
            compression_level,
            8186,
            Err(cause),
        )),
{
    law_page_holds_u32(data@, values);
}

/// The same of a page whose width is given as 32 bits.
pub proof fn law_encoding_page_of_32_bits(
    data: &[u8],
    num_values: u64,
    compression_level: usize,
    values: Seq<u32>,
    r: Result<Vec<u8>, Error>,
)
    requires
        data@.len() == 4 * values.len(),
        forall|i: int|
            0 <= i < values.len() ==> #[trigger] values[i] as nat == EndianNat::<u8>::new_default(
                data@.subrange(4 * i, 4 * i + 4).map_values(|byte: u8| byte as int),
            ).to_nat(),
        call_ensures(encode_page, (32, data, num_values, compression_level), r),
    ensures
        r is Ok <==> compression_level <= 12 || values.len() == 0,
        r matches Ok(stream) ==> pco_decoded_u32(stream@) == Ok::<Seq<u32>, PcoError>(values),
        r matches Ok(stream) ==> pco_may_give_u32(
            values,
            compression_level,
            8186,
            Ok(stream@),
        ),
        r matches Err(e) ==> (e matches Error::CompressionFailed { cause } && pco_may_give_u32(
            values,
            compression_level,
            8186,
            Err(cause),
        )),
{
    law_page_holds_u32(data@, values);
}

/// Decoded `u32` values become the page that holds all of them, if there are as
/// many as asked for, and are refused with both counts otherwise.
pub proof fn law_paging_u32(values: Vec<u32>, num_values: u64, r: Result<Vec<u8>, Error>)
    requires
        call_ensures(pcodec_page::<u32>, (values, num_values), r),
    ensures
        values@.len() != num_values as usize ==> r == Err::<Vec<u8>, Error>(
            Error::ValueCount { expected: num_values, got: values@.len() as usize },
        ),
        values@.len() == num_values as usize ==> {
            &&& r matches Ok(page)
            &&& page@.len() == 4 * values@.len()
            &&& forall|i: int|
                0 <= i < values@.len() ==> #[trigger] values@[i] as nat == EndianNat::<
                    u8,
                >::new_default(
                    page@.subrange(4 * i, 4 * i + 4).map_values(|byte: u8| byte as int),
                ).to_nat()
        },
{
    if let Ok(page) = r {
        law_page_holds_u32(page@, values@);
    }
}

/// A stream decodes to the page that holds all of its `u32` values, if there are
/// as many as asked for.
pub proof fn law_decoding_u32(stream: &[u8], num_values: u64, r: Result<Vec<u8>, Error>)
    requires
        call_ensures(pcodec_decode::<u32>, (stream, num_values), r),
    ensures
        match pco_decoded_u32(stream@) {
            Err(cause) => r == Err::<Vec<u8>, Error>(Error::DecompressionFailed { cause }),
            Ok(values) => if values.len() != num_values as usize {
                r == Err::<Vec<u8>, Error>(
                    Error::ValueCount { expected: num_values, got: values.len() as usize },
                )
            } else {
                &&& r matches Ok(page)
                &&& page@.len() == 4 * values.len()
                &&& forall|i: int|
                    0 <= i < values.len() ==> #[trigger] values[i] as nat == EndianNat::<
                        u8,
                    >::new_default(
                        page@.subrange(4 * i, 4 * i + 4).map_values(|byte: u8| byte as int),
                    ).to_nat()
            },
        },
{
    if let (Ok(values), Ok(page)) = (pco_decoded_u32(stream@), r) {
        law_page_holds_u32(page@, values);
    }
}

/// The same of a stream whose width is given as 32 bits.
pub proof fn law_decoding_page_of_32_bits(
    stream: &[u8],
    num_values: u64,
    r: Result<Vec<u8>, Error>,
)
    requires
        call_ensures(decode_page, (32, stream, num_values), r),
    ensures
        match pco_decoded_u32(stream@) {
            Err(cause) => r == Err::<Vec<u8>, Error>(Error::DecompressionFailed { cause }),
            Ok(values) => if values.len() != num_values as usize {
                r == Err::<Vec<u8>, Error>(
                    Error::ValueCount { expected: num_values, got: values.len() as usize },
                )
            } else {
                &&& r matches Ok(page)
                &&& page@.len() == 4 * values.len()
                &&& forall|i: int|
                    0 <= i < values.len() ==> #[trigger] values[i] as nat == EndianNat::<
                        u8,
                    >::new_default(
                        page@.subrange(4 * i, 4 * i + 4).map_values(|byte: u8| byte as int),
                    ).to_nat()
            },
        },
{
    if let (Ok(values), Ok(page)) = (pco_decoded_u32(stream@), r) {
        law_page_holds_u32(page@, values);
    }
}

/// `u64` values compress, at any level up to 12, into a stream that decodes to
/// them and that the compressor can give for them, the level and the bound.
pub proof fn law_compressing_u64(
    values: &[u64],
    compression_level: usize,
    chunk_limit: usize,
    r: Result<Vec<u8>, PcoError>,
)
    requires
        call_ensures(
            <u64 as PcodecValue>::compress,
            (values, compression_level, chunk_limit),
            r,
        ),
    ensures
        r is Ok <==> compression_level <= 12 || values@.len() == 0,
        r matches Ok(stream) ==> pco_decoded_u64(stream@) == Ok::<Seq<u64>, PcoError>(values@),
        r matches Ok(stream) ==> pco_may_give_u64(
            values@,
            compression_level,
            chunk_limit,
            Ok(stream@),
        ),
        r matches Err(cause) ==> pco_may_give_u64(
            values@,
            compression_level,
            chunk_limit,
            Err(cause),
        ),
{
}

/// A stream of `u64` values gives the values or the error of the decoder.
pub proof fn law_decompressing_u64(stream: &[u8], r: Result<Vec<u64>, PcoError>)
    requires
        call_ensures(<u64 as PcodecValue>::decompress, (stream,), r),
    ensures
        match pco_decoded_u64(stream@) {
            Ok(values) => r matches Ok(decoded) && decoded@ == values,
            Err(cause) => r == Err::<Vec<u64>, PcoError>(cause),
        },
{
}

/// A page that holds `u64` values is encoded, at any level up to 12, as a stream
/// that decodes to exactly these values, in chunks of at most 8186 of them.
pub proof fn law_encoding_u64(
    data: &[u8],
    num_values: u64,
    compression_level: usize,
    values: Seq<u64>,
    r: Result<Vec<u8>, Error>,
)
    requires
        data@.len() == 8 * values.len(),
        forall|i: int|
            0 <= i < values.len() ==> #[trigger] values[i] as nat == EndianNat::<u8>::new_default(
                data@.subrange(8 * i, 8 * i + 8).map_values(|byte: u8| byte as int),
            ).to_nat(),
        call_ensures(pcodec_encode::<u64>, (data, num_values, compression_level), r),
    ensures
        r is Ok <==> compression_level <= 12 || values.len() == 0,
        r matches Ok(stream) ==> pco_decoded_u64(stream@) == Ok::<Seq<u64>, PcoError>(values),
        r matches Ok(stream) ==> pco_may_give_u64(
            values,
            compression_level,
            8186,
            Ok(stream@),
        ),
        r matches Err(e) ==> (e matches Error::CompressionFailed { cause } && pco_may_give_u64(
            values,
            compression_level,
            8186,
            Err(cause),
        )),
{
    law_page_holds_u64(data@, values);
}

/// The same of a page whose width is given as 64 bits.
pub proof fn law_encoding_page_of_64_bits(
    data: &[u8],
    num_values: u64,
    compression_level: usize,
    values: Seq<u64>,
    r: Result<Vec<u8>, Error>,
)
    requires
        data@.len() == 8 * values.len(),
        forall|i: int|
            0 <= i < values.len() ==> #[trigger] values[i] as nat == EndianNat::<u8>::new_default(
                data@.subrange(8 * i, 8 * i + 8).map_values(|byte: u8| byte as int),
            ).to_nat(),
        call_ensures(encode_page, (64, data, num_values, compression_level), r),
    ensures
        r is Ok <==> compression_level <= 12 || values.len() == 0,
        r matches Ok(stream) ==> pco_decoded_u64(stream@) == Ok::<Seq<u64>, PcoError>(values),
        r matches Ok(stream) ==> pco_may_give_u64(
            values,
            compression_level,
            8186,
            Ok(stream@),
        ),
        r matches Err(e) ==> (e matches Error::CompressionFailed { cause } && pco_may_give_u64(
            values,
            compression_level,
            8186,
            Err(cause),
        )),
{
    law_page_holds_u64(data@, values);
}

/// Decoded `u64` values become the page that holds all of them, if there are as
/// many as asked for, and are refused with both counts otherwise.
pub proof fn law_paging_u64(values: Vec<u64>, num_values: u64, r: Result<Vec<u8>, Error>)
    requires
        call_ensures(pcodec_page::<u64>, (values, num_values), r),
    ensures
        values@.len() != num_values as usize ==> r == Err::<Vec<u8>, Error>(
            Error::ValueCount { expected: num_values, got: values@.len() as usize },
        ),
        values@.len() == num_values as usize ==> {
            &&& r matches Ok(page)
            &&& page@.len() == 8 * values@.len()
            &&& forall|i: int|
                0 <= i < values@.len() ==> #[trigger] values@[i] as nat == EndianNat::<
                    u8,
                >::new_default(
                    page@.subrange(8 * i, 8 * i + 8).map_values(|byte: u8| byte as int),
                ).to_nat()
        },
{
    if let Ok(page) = r {
        law_page_holds_u64(page@, values@);
    }
}

/// A stream decodes to the page that holds all of its `u64` values, if there are
/// as many as asked for.
pub proof fn law_decoding_u64(stream: &[u8], num_values: u64, r: Result<Vec<u8>, Error>)
    requires
        call_ensures(pcodec_decode::<u64>, (stream, num_values), r),
    ensures
        match pco_decoded_u64(stream@) {
            Err(cause) => r == Err::<Vec<u8>, Error>(Error::DecompressionFailed { cause }),
            Ok(values) => if values.len() != num_values as usize {
                r == Err::<Vec<u8>, Error>(
                    Error::ValueCount { expected: num_values, got: values.len() as usize },
                )
            } else {
                &&& r matches Ok(page)
                &&& page@.len() == 8 * values.len()
                &&& forall|i: int|
                    0 <= i < values.len() ==> #[trigger] values[i] as nat == EndianNat::<
                        u8,
                    >::new_default(
                        page@.subrange(8 * i, 8 * i + 8).map_values(|byte: u8| byte as int),
                    ).to_nat()
            },
        },
{
    if let (Ok(values), Ok(page)) = (pco_decoded_u64(stream@), r) {
        law_page_holds_u64(page@, values);
    }
}

/// The same of a stream whose width is given as 64 bits.
pub proof fn law_decoding_page_of_64_bits(
    stream: &[u8],
    num_values: u64,
    r: Result<Vec<u8>, Error>,
)
    requires
        call_ensures(decode_page, (64, stream, num_values), r),
    ensures
        match pco_decoded_u64(stream@) {
            Err(cause) => r == Err::<Vec<u8>, Error>(Error::DecompressionFailed { cause }),
            Ok(values) => if values.len() != num_values as usize {
                r == Err::<Vec<u8>, Error>(
                    Error::ValueCount { expected: num_values, got: values.len() as usize },
                )
            } else {
                &&& r matches Ok(page)
                &&& page@.len() == 8 * values.len()
                &&& forall|i: int|
                    0 <= i < values.len() ==> #[trigger] values[i] as nat == EndianNat::<
                        u8,
                    >::new_default(
                        page@.subrange(8 * i, 8 * i + 8).map_values(|byte: u8| byte as int),
                    ).to_nat()
            },
        },
{
    if let (Ok(values), Ok(page)) = (pco_decoded_u64(stream@), r) {
        law_page_holds_u64(page@, values);
    }
}

} // verus!
