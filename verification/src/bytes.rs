//! Pages of raw bytes, read as numbers in the byte order of the machine.

use vstd::arithmetic::div_mod::lemma_fundamental_div_mod;
use vstd::arithmetic::power::pow;
use vstd::endian::Endian;
use vstd::prelude::*;

verus! {

/// The number whose base 256 digits are `digits`, least significant first.
pub open spec fn little_endian(digits: Seq<u8>) -> nat
    decreases digits.len(),
{
    if digits.len() == 0 {
        0
    } else {
        digits[0] as nat + 256 * little_endian(digits.drop_first())
    }
}

/// The number that `digits` hold in the byte order of the executing machine.
pub open spec fn native(digits: Seq<u8>) -> nat {
    match vstd::endian::endianness() {
        Endian::Little => little_endian(digits),
        Endian::Big => little_endian(digits.reverse()),
    }
}

/// The bytes of the value at index `i` of a page of `width` byte values.
pub open spec fn cell(page: Seq<u8>, width: nat, i: int) -> Seq<u8> {
    page.subrange(i * width, i * width + width)
}

/// The numbers that a page of `width` byte values holds, in order.
pub open spec fn page_values(page: Seq<u8>, width: nat) -> Seq<nat> {
    Seq::new(page.len() / width, |i: int| native(cell(page, width, i)))
}

/// Digit sequences of one length that denote the same number are the same.
pub proof fn lemma_little_endian_injective(a: Seq<u8>, b: Seq<u8>)
    requires
        a.len() == b.len(),
        little_endian(a) == little_endian(b),
    ensures
        a == b,
    decreases a.len(),
{
    if a.len() > 0 {
        lemma_little_endian_injective(a.drop_first(), b.drop_first());
        assert(a =~= seq![a[0]] + a.drop_first());
        assert(b =~= seq![b[0]] + b.drop_first());
    } else {
        assert(a =~= b);
    }
}

/// Byte sequences of one length that hold the same number are the same.
pub proof fn lemma_native_injective(a: Seq<u8>, b: Seq<u8>)
    requires
        a.len() == b.len(),
        native(a) == native(b),
    ensures
        a == b,
{
    match vstd::endian::endianness() {
        Endian::Little => {
            lemma_little_endian_injective(a, b);
        },
        Endian::Big => {
            lemma_little_endian_injective(a.reverse(), b.reverse());
            assert(a =~= a.reverse().reverse());
            assert(b =~= b.reverse().reverse());
        },
    }
}

/// A number of `digits.len()` base 256 digits is less than that power of 256.
pub proof fn lemma_little_endian_bound(digits: Seq<u8>)
    ensures
        little_endian(digits) < pow(256, digits.len()),
    decreases digits.len(),
{
    reveal(pow);
    if digits.len() > 0 {
        lemma_little_endian_bound(digits.drop_first());
    }
}

/// A number held in `digits.len()` bytes is less than that power of 256.
pub proof fn lemma_native_bound(digits: Seq<u8>)
    ensures
        native(digits) < pow(256, digits.len()),
{
    lemma_little_endian_bound(digits);
    lemma_little_endian_bound(digits.reverse());
}

/// A page is determined by the numbers that it holds: pages of one length, a
/// multiple of the width, with the same values have the same bytes.
pub proof fn law_values_determine_page(a: Seq<u8>, b: Seq<u8>, width: nat)
    requires
        width > 0,
        a.len() == b.len(),
        a.len() % width == 0,
        page_values(a, width) == page_values(b, width),
    ensures
        a == b,
{
    let n = a.len() / width;
    lemma_fundamental_div_mod(a.len() as int, width as int);
    assert forall|k: int| 0 <= k < a.len() implies a[k] == b[k] by {
        let i = k / (width as int);
        let j = k % (width as int);
        lemma_fundamental_div_mod(k, width as int);
        assert(0 <= i < n && 0 <= j < width && k == i * width + j && 0 <= i * width && i * width
            + width <= a.len()) by (nonlinear_arith)
            requires
                width > 0,
                a.len() == width * n,
                0 <= k < a.len(),
                k == width * i + j,
                i == k / (width as int),
                j == k % (width as int),
        ;
        assert(page_values(a, width)[i] == native(cell(a, width, i)));
        assert(page_values(b, width)[i] == native(cell(b, width, i)));
        lemma_native_injective(cell(a, width, i), cell(b, width, i));
        assert(a[k] == cell(a, width, i)[j]);
        assert(b[k] == cell(b, width, i)[j]);
    }
    assert(a =~= b);
}

} // verus!
