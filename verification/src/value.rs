//! The types of the values in a page: `u16`, `u32` and `u64`.
//!
//! Signed integers and floating point numbers of these widths travel as the
//! unsigned values with the same bytes.

use crate::bytes::{cell, law_values_determine_page, lemma_native_bound, page_values};
use crate::casts::{
    bytes_of_u16, bytes_of_u32, bytes_of_u64, collect_u16, collect_u32, collect_u64,
};
use crate::streams::{
    compress_u16, compress_u32, compress_u64, decompress_u16, decompress_u32, decompress_u64,
    MAX_CHUNK_VALUES, MAX_COMPRESSION_LEVEL,
};
use pco::errors::PcoError;
use vstd::arithmetic::div_mod::{
    lemma_div_multiples_vanish, lemma_fundamental_div_mod, lemma_mod_multiples_basic,
};
use vstd::arithmetic::mul::lemma_mul_is_commutative;
use vstd::arithmetic::power::pow;
use vstd::prelude::*;

verus! {

/// A type of fixed-width values, as pages and streams hold them.
pub trait Word: Sized {
    /// The bytes in a value.
    spec fn width() -> nat;

    /// The value that is the number `n`, where `n` fits the width.
    spec fn of_number(n: nat) -> Self;

    /// What a stream decodes to, or the error where it is not a valid one.
    spec fn decoded(stream: Seq<u8>) -> Result<Seq<Self>, PcoError>;

    /// `outcome` is a possible one of compressing `values` at a compression
    /// level, with a bound on the values in a chunk.
    spec fn may_give(
        values: Seq<Self>,
        compression_level: usize,
        chunk_limit: usize,
        outcome: Result<Seq<u8>, PcoError>,
    ) -> bool;

    /// A value has at least one byte.
    proof fn lemma_width()
        ensures
            Self::width() > 0,
    ;

    /// Numbers that fit the width are told apart as values.
    proof fn lemma_of_number_injective(a: nat, b: nat)
        requires
            a < pow(256, Self::width()),
            b < pow(256, Self::width()),
            Self::of_number(a) == Self::of_number(b),
        ensures
            a == b,
    ;
}

/// The values that a page holds, in order.
pub open spec fn values_of<T: Word>(page: Seq<u8>) -> Seq<T> {
    page_values(page, T::width()).map_values(|n: nat| T::of_number(n))
}

/// `page` consists of exactly `values`.
pub open spec fn is_page_of<T: Word>(page: Seq<u8>, values: Seq<T>) -> bool {
    &&& page.len() == T::width() * values.len()
    &&& values_of::<T>(page) == values
}

/// A type of values that `bytemuck` casts to and from bytes, and that `pco`
/// compresses.
pub trait PcodecValue: Word {
    /// Reads the values of a page.
    fn from_page(page: &[u8]) -> (values: Vec<Self>)
        requires
            page@.len() % Self::width() == 0,
        ensures
            values@ == values_of::<Self>(page@),
    ;

    /// Lays values out as a page.
    fn to_page(values: &[Self]) -> (page: Vec<u8>)
        ensures
            is_page_of(page@, values@),
    ;

    /// Compresses values into a stream.
    fn compress(values: &[Self], compression_level: usize, chunk_limit: usize) -> (r: Result<
        Vec<u8>,
        PcoError,
    >)
        requires
            0 < chunk_limit <= MAX_CHUNK_VALUES,
        ensures
            r is Ok <==> compression_level <= MAX_COMPRESSION_LEVEL || values@.len() == 0,
            r matches Ok(stream) ==> Self::may_give(
                values@,
                compression_level,
                chunk_limit,
                Ok(stream@),
            ),
            r matches Err(cause) ==> Self::may_give(
                values@,
                compression_level,
                chunk_limit,
                Err(cause),
            ),
            r matches Ok(stream) ==> (Self::decoded(stream@) matches Ok(decoded) && decoded
                == values@),
    ;

    /// Recovers the values from a stream.
    fn decompress(stream: &[u8]) -> (r: Result<Vec<Self>, PcoError>)
        ensures
            match r {
                Ok(values) => Self::decoded(stream@) == Ok::<Seq<Self>, PcoError>(values@),
                Err(cause) => Self::decoded(stream@) == Err::<Seq<Self>, PcoError>(cause),
            },
    ;
}

/// A page of whole values is the page of the values that are read from it.
pub proof fn lemma_page_of_its_values<T: Word>(page: Seq<u8>)
    requires
        page.len() % T::width() == 0,
    ensures
        is_page_of(page, values_of::<T>(page)),
{
    T::lemma_width();
    lemma_fundamental_div_mod(page.len() as int, T::width() as int);
}

/// A page that takes the bytes of `count` values is the page of that many.
pub proof fn lemma_page_of_count<T: Word>(page: Seq<u8>, count: nat)
    requires
        page.len() == T::width() * count,
    ensures
        page.len() % T::width() == 0,
        values_of::<T>(page).len() == count,
        is_page_of(page, values_of::<T>(page)),
{
    T::lemma_width();
    lemma_mul_is_commutative(count as int, T::width() as int);
    lemma_mod_multiples_basic(count as int, T::width() as int);
    lemma_div_multiples_vanish(count as int, T::width() as int);
    lemma_page_of_its_values::<T>(page);
}

/// There is only one page of given values.
pub proof fn law_page_is_unique<T: Word>(a: Seq<u8>, b: Seq<u8>, values: Seq<T>)
    requires
        is_page_of(a, values),
        is_page_of(b, values),
    ensures
        a == b,
{
    T::lemma_width();
    let width = T::width();
    lemma_mod_multiples_basic(values.len() as int, width as int);
    lemma_mul_is_commutative(values.len() as int, width as int);
    let xs = page_values(a, width);
    let ys = page_values(b, width);
    lemma_fundamental_div_mod(a.len() as int, width as int);
    assert forall|i: int| 0 <= i < xs.len() implies xs[i] == ys[i] by {
        assert(0 <= i * width && i * width + width <= a.len()) by (nonlinear_arith)
            requires
                0 <= i < xs.len(),
                a.len() == width * xs.len(),
        ;
        lemma_native_bound(cell(a, width, i));
        lemma_native_bound(cell(b, width, i));
        assert(values_of::<T>(a)[i] == T::of_number(xs[i]));
        assert(values_of::<T>(b)[i] == T::of_number(ys[i]));
        T::lemma_of_number_injective(xs[i], ys[i]);
    }
    assert(xs =~= ys);
    law_values_determine_page(a, b, width);
}

impl Word for u16 {
    open spec fn width() -> nat {
        2
    }

    open spec fn of_number(n: nat) -> u16 {
        n as u16
    }

    open spec fn decoded(stream: Seq<u8>) -> Result<Seq<u16>, PcoError> {
        crate::streams::pco_decoded_u16(stream)
    }

    open spec fn may_give(
        values: Seq<u16>,
        compression_level: usize,
        chunk_limit: usize,
        outcome: Result<Seq<u8>, PcoError>,
    ) -> bool {
        crate::streams::pco_may_give_u16(values, compression_level, chunk_limit, outcome)
    }

    proof fn lemma_width() {
    }

    proof fn lemma_of_number_injective(a: nat, b: nat) {
        reveal_with_fuel(pow, 3);
        assert(pow(256, 2) == 65536);
    }
}

impl PcodecValue for u16 {
    fn from_page(page: &[u8]) -> (values: Vec<u16>) {
        let values = collect_u16(page);
        assert(values@ =~= values_of::<u16>(page@));
        values
    }

    fn to_page(values: &[u16]) -> (page: Vec<u8>) {
        let page = bytes_of_u16(values);
        assert(values_of::<u16>(page@) =~= values@);
        page
    }

    fn compress(values: &[u16], compression_level: usize, chunk_limit: usize) -> (r: Result<
        Vec<u8>,
        PcoError,
    >) {
        compress_u16(values, compression_level, chunk_limit)
    }

    fn decompress(stream: &[u8]) -> (r: Result<Vec<u16>, PcoError>) {
        decompress_u16(stream)
    }
}

impl Word for u32 {
    open spec fn width() -> nat {
        4
    }

    open spec fn of_number(n: nat) -> u32 {
        n as u32
    }

    open spec fn decoded(stream: Seq<u8>) -> Result<Seq<u32>, PcoError> {
        crate::streams::pco_decoded_u32(stream)
    }

    open spec fn may_give(
        values: Seq<u32>,
        compression_level: usize,
        chunk_limit: usize,
        outcome: Result<Seq<u8>, PcoError>,
    ) -> bool {
        crate::streams::pco_may_give_u32(values, compression_level, chunk_limit, outcome)
    }

    proof fn lemma_width() {
    }

    proof fn lemma_of_number_injective(a: nat, b: nat) {
        reveal_with_fuel(pow, 5);
        assert(pow(256, 4) == 4294967296);
    }
}

impl PcodecValue for u32 {
    fn from_page(page: &[u8]) -> (values: Vec<u32>) {
        let values = collect_u32(page);
        assert(values@ =~= values_of::<u32>(page@));
        values
    }

    fn to_page(values: &[u32]) -> (page: Vec<u8>) {
        let page = bytes_of_u32(values);
        assert(values_of::<u32>(page@) =~= values@);
        page
    }

    fn compress(values: &[u32], compression_level: usize, chunk_limit: usize) -> (r: Result<
        Vec<u8>,
        PcoError,
    >) {
        compress_u32(values, compression_level, chunk_limit)
    }

    fn decompress(stream: &[u8]) -> (r: Result<Vec<u32>, PcoError>) {
        decompress_u32(stream)
    }
}

impl Word for u64 {
    open spec fn width() -> nat {
        8
    }

    open spec fn of_number(n: nat) -> u64 {
        n as u64
    }

    open spec fn decoded(stream: Seq<u8>) -> Result<Seq<u64>, PcoError> {
        crate::streams::pco_decoded_u64(stream)
    }

    open spec fn may_give(
        values: Seq<u64>,
        compression_level: usize,
        chunk_limit: usize,
        outcome: Result<Seq<u8>, PcoError>,
    ) -> bool {
        crate::streams::pco_may_give_u64(values, compression_level, chunk_limit, outcome)
    }

    proof fn lemma_width() {
    }

    proof fn lemma_of_number_injective(a: nat, b: nat) {
        reveal_with_fuel(pow, 9);
        assert(pow(256, 8) == 18446744073709551616);
    }
}

impl PcodecValue for u64 {
    fn from_page(page: &[u8]) -> (values: Vec<u64>) {
        let values = collect_u64(page);
        assert(values@ =~= values_of::<u64>(page@));
        values
    }

    fn to_page(values: &[u64]) -> (page: Vec<u8>) {
        let page = bytes_of_u64(values);
        assert(values_of::<u64>(page@) =~= values@);
        page
    }

    fn compress(values: &[u64], compression_level: usize, chunk_limit: usize) -> (r: Result<
        Vec<u8>,
        PcoError,
    >) {
        compress_u64(values, compression_level, chunk_limit)
    }

    fn decompress(stream: &[u8]) -> (r: Result<Vec<u64>, PcoError>) {
        decompress_u64(stream)
    }
}

} // verus!
