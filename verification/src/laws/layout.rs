//! How values lie in a page: in order, each in the byte order of the machine.

use crate::bytes::{cell, lemma_native_bound, little_endian, native, page_values};
use crate::value::{is_page_of, lemma_page_of_count, lemma_page_of_its_values, values_of, PcodecValue};
use vstd::arithmetic::power::pow;
use vstd::endian::{Endian, EndianNat};
use vstd::prelude::*;

verus! {

/// Bytes denote the same number here and as digits of an `EndianNat`.
proof fn lemma_endian_number(endian: Endian, digits: Seq<int>, bytes: Seq<u8>)
    requires
        digits.len() == bytes.len(),
        forall|k: int| 0 <= k < bytes.len() ==> digits[k] == bytes[k],
    ensures
        EndianNat::<u8>::new(endian, digits).to_nat() == match endian {
            Endian::Little => little_endian(bytes),
            Endian::Big => little_endian(bytes.reverse()),
        },
    decreases bytes.len(),
{
    reveal(EndianNat::to_nat);
    if bytes.len() > 0 {
        match endian {
            Endian::Little => {
                lemma_endian_number(endian, digits.drop_first(), bytes.drop_first());
            },
            Endian::Big => {
                lemma_endian_number(endian, digits.drop_last(), bytes.drop_last());
                assert(bytes.reverse().drop_first() =~= bytes.drop_last().reverse());
            },
        }
    }
}

/// A page consists of `u16` values where it has 2 bytes for each of them, and
/// the bytes at its place denote the value in the byte order of the machine.
pub proof fn law_page_holds_u16(page: Seq<u8>, values: Seq<u16>)
    ensures
        is_page_of(page, values) <==> page.len() == 2 * values.len() && forall|i: int|
            0 <= i < values.len() ==> #[trigger] values[i] as nat == EndianNat::<u8>::new_default(
                page.subrange(2 * i, 2 * i + 2).map_values(|byte: u8| byte as int),
            ).to_nat(),
{
    if page.len() == 2 * values.len() {
        lemma_page_of_count::<u16>(page, values.len());
        let held = values_of::<u16>(page);
        assert forall|i: int| 0 <= i < values.len() implies #[trigger] held[i] as nat
            == EndianNat::<u8>::new_default(
                page.subrange(2 * i, 2 * i + 2).map_values(|byte: u8| byte as int),
            ).to_nat() by {
            let bytes = page.subrange(2 * i, 2 * i + 2);
            assert(cell(page, 2, i) =~= bytes);
            lemma_endian_number(
                vstd::endian::endianness(),
                bytes.map_values(|byte: u8| byte as int),
                bytes,
            );
            lemma_native_bound(bytes);
            reveal_with_fuel(pow, 3);
            assert(page_values(page, 2)[i] == native(bytes));
        }
        if forall|i: int|
            0 <= i < values.len() ==> #[trigger] values[i] as nat == EndianNat::<u8>::new_default(
                page.subrange(2 * i, 2 * i + 2).map_values(|byte: u8| byte as int),
            ).to_nat() {
            assert forall|i: int| 0 <= i < values.len() implies held[i] == values[i] by {
            }
            assert(held =~= values);
        }
    }
}

/// Reading a page of whole `u16` values gives each value that it holds, in
/// order.
pub proof fn law_reading_u16(page: &[u8], values: Vec<u16>)
    requires
        page@.len() % 2 == 0,
        call_ensures(<u16 as PcodecValue>::from_page, (page,), values),
    ensures
        page@.len() == 2 * values@.len(),
        forall|i: int|
            0 <= i < values@.len() ==> #[trigger] values@[i] as nat == EndianNat::<u8>::new_default(
                page@.subrange(2 * i, 2 * i + 2).map_values(|byte: u8| byte as int),
            ).to_nat(),
{
    lemma_page_of_its_values::<u16>(page@);
    law_page_holds_u16(page@, values@);
}

/// Laying `u16` values out gives a page that holds each of them, in order.
pub proof fn law_writing_u16(values: &[u16], page: Vec<u8>)
    requires
        call_ensures(<u16 as PcodecValue>::to_page, (values,), page),
    ensures
        page@.len() == 2 * values@.len(),
        forall|i: int|
            0 <= i < values@.len() ==> #[trigger] values@[i] as nat == EndianNat::<u8>::new_default(
                page@.subrange(2 * i, 2 * i + 2).map_values(|byte: u8| byte as int),
            ).to_nat(),
{
    law_page_holds_u16(page@, values@);
}

/// A page consists of `u32` values where it has 4 bytes for each of them, and
/// the bytes at its place denote the value in the byte order of the machine.
pub proof fn law_page_holds_u32(page: Seq<u8>, values: Seq<u32>)
    ensures
        is_page_of(page, values) <==> page.len() == 4 * values.len() && forall|i: int|
            0 <= i < values.len() ==> #[trigger] values[i] as nat == EndianNat::<u8>::new_default(
                page.subrange(4 * i, 4 * i + 4).map_values(|byte: u8| byte as int),
            ).to_nat(),
{
    if page.len() == 4 * values.len() {
        lemma_page_of_count::<u32>(page, values.len());
        let held = values_of::<u32>(page);
        assert forall|i: int| 0 <= i < values.len() implies #[trigger] held[i] as nat
            == EndianNat::<u8>::new_default(
                page.subrange(4 * i, 4 * i + 4).map_values(|byte: u8| byte as int),
            ).to_nat() by {
            let bytes = page.subrange(4 * i, 4 * i + 4);
            assert(cell(page, 4, i) =~= bytes);
            lemma_endian_number(
                vstd::endian::endianness(),
                bytes.map_values(|byte: u8| byte as int),
                bytes,
            );
            lemma_native_bound(bytes);
            reveal_with_fuel(pow, 5);
            assert(page_values(page, 4)[i] == native(bytes));
        }
        if forall|i: int|
            0 <= i < values.len() ==> #[trigger] values[i] as nat == EndianNat::<u8>::new_default(
                page.subrange(4 * i, 4 * i + 4).map_values(|byte: u8| byte as int),
            ).to_nat() {
            assert forall|i: int| 0 <= i < values.len() implies held[i] == values[i] by {
            }
            assert(held =~= values);
        }
    }
}

/// Reading a page of whole `u32` values gives each value that it holds, in
/// order.
pub proof fn law_reading_u32(page: &[u8], values: Vec<u32>)
    requires
        page@.len() % 4 == 0,
        call_ensures(<u32 as PcodecValue>::from_page, (page,), values),
    ensures
        page@.len() == 4 * values@.len(),
        forall|i: int|
            0 <= i < values@.len() ==> #[trigger] values@[i] as nat == EndianNat::<u8>::new_default(
                page@.subrange(4 * i, 4 * i + 4).map_values(|byte: u8| byte as int),
            ).to_nat(),
{
    lemma_page_of_its_values::<u32>(page@);
    law_page_holds_u32(page@, values@);
}

/// Laying `u32` values out gives a page that holds each of them, in order.
pub proof fn law_writing_u32(values: &[u32], page: Vec<u8>)
    requires
        call_ensures(<u32 as PcodecValue>::to_page, (values,), page),
    ensures
        page@.len() == 4 * values@.len(),
        forall|i: int|
            0 <= i < values@.len() ==> #[trigger] values@[i] as nat == EndianNat::<u8>::new_default(
                page@.subrange(4 * i, 4 * i + 4).map_values(|byte: u8| byte as int),
            ).to_nat(),
{
    law_page_holds_u32(page@, values@);
}

/// A page consists of `u64` values where it has 8 bytes for each of them, and
/// the bytes at its place denote the value in the byte order of the machine.
pub proof fn law_page_holds_u64(page: Seq<u8>, values: Seq<u64>)
    ensures
        is_page_of(page, values) <==> page.len() == 8 * values.len() && forall|i: int|
            0 <= i < values.len() ==> #[trigger] values[i] as nat == EndianNat::<u8>::new_default(
                page.subrange(8 * i, 8 * i + 8).map_values(|byte: u8| byte as int),
            ).to_nat(),
{
    if page.len() == 8 * values.len() {
        lemma_page_of_count::<u64>(page, values.len());
        let held = values_of::<u64>(page);
        assert forall|i: int| 0 <= i < values.len() implies #[trigger] held[i] as nat
            == EndianNat::<u8>::new_default(
                page.subrange(8 * i, 8 * i + 8).map_values(|byte: u8| byte as int),
            ).to_nat() by {
            let bytes = page.subrange(8 * i, 8 * i + 8);
            assert(cell(page, 8, i) =~= bytes);
            lemma_endian_number(
                vstd::endian::endianness(),
                bytes.map_values(|byte: u8| byte as int),
                bytes,
            );
            lemma_native_bound(bytes);
            reveal_with_fuel(pow, 9);
            assert(page_values(page, 8)[i] == native(bytes));
        }
        if forall|i: int|
            0 <= i < values.len() ==> #[trigger] values[i] as nat == EndianNat::<u8>::new_default(
                page.subrange(8 * i, 8 * i + 8).map_values(|byte: u8| byte as int),
            ).to_nat() {
            assert forall|i: int| 0 <= i < values.len() implies held[i] == values[i] by {
            }
            assert(held =~= values);
        }
    }
}

/// Reading a page of whole `u64` values gives each value that it holds, in
/// order.
pub proof fn law_reading_u64(page: &[u8], values: Vec<u64>)
    requires
        page@.len() % 8 == 0,
        call_ensures(<u64 as PcodecValue>::from_page, (page,), values),
    ensures
        page@.len() == 8 * values@.len(),
        forall|i: int|
            0 <= i < values@.len() ==> #[trigger] values@[i] as nat == EndianNat::<u8>::new_default(
                page@.subrange(8 * i, 8 * i + 8).map_values(|byte: u8| byte as int),
            ).to_nat(),
{
    lemma_page_of_its_values::<u64>(page@);
    law_page_holds_u64(page@, values@);
}

/// Laying `u64` values out gives a page that holds each of them, in order.
pub proof fn law_writing_u64(values: &[u64], page: Vec<u8>)
    requires
        call_ensures(<u64 as PcodecValue>::to_page, (values,), page),
    ensures
        page@.len() == 8 * values@.len(),
        forall|i: int|
            0 <= i < values@.len() ==> #[trigger] values@[i] as nat == EndianNat::<u8>::new_default(
                page@.subrange(8 * i, 8 * i + 8).map_values(|byte: u8| byte as int),
            ).to_nat(),
{
    law_page_holds_u64(page@, values@);
}

} // verus!
