//! Raw page bytes and typed values, converted by `bytemuck`.

use crate::bytes::page_values;
use vstd::prelude::*;

verus! {

/// Calls `bytemuck::pod_collect_to_vec`, which copies the bytes of a page into
/// storage for `u16` values. Claims that each value is the one that its two
/// bytes hold in the byte order of the machine. The page may start at any
/// address, but has to hold whole values.
#[verifier::external_body]
pub(crate) fn collect_u16(page: &[u8]) -> (values: Vec<u16>)
    requires
        page@.len() % 2 == 0,
    ensures
        values@ == page_values(page@, 2).map_values(|n: nat| n as u16),
{
    bytemuck::pod_collect_to_vec::<u8, u16>(page)
}

/// Calls `bytemuck::cast_slice`, which views `u16` values as their bytes.
/// Claims that there are two bytes to each value, and that they hold it in
/// the byte order of the machine.
#[verifier::external_body]
pub(crate) fn bytes_of_u16(values: &[u16]) -> (page: Vec<u8>)
    ensures
        page@.len() == 2 * values@.len(),
        page_values(page@, 2).map_values(|n: nat| n as u16) == values@,
{
    bytemuck::cast_slice::<u16, u8>(values).to_vec()
}

/// Calls `bytemuck::pod_collect_to_vec`, which copies the bytes of a page into
/// storage for `u32` values. Claims that each value is the one that its four
/// bytes hold in the byte order of the machine. The page may start at any
/// address, but has to hold whole values.
#[verifier::external_body]
pub(crate) fn collect_u32(page: &[u8]) -> (values: Vec<u32>)
    requires
        page@.len() % 4 == 0,
    ensures
        values@ == page_values(page@, 4).map_values(|n: nat| n as u32),
{
    bytemuck::pod_collect_to_vec::<u8, u32>(page)
}

/// Calls `bytemuck::cast_slice`, which views `u32` values as their bytes.
/// Claims that there are four bytes to each value, and that they hold it in
/// the byte order of the machine.
#[verifier::external_body]
pub(crate) fn bytes_of_u32(values: &[u32]) -> (page: Vec<u8>)
    ensures
        page@.len() == 4 * values@.len(),
        page_values(page@, 4).map_values(|n: nat| n as u32) == values@,
{
    bytemuck::cast_slice::<u32, u8>(values).to_vec()
}

/// Calls `bytemuck::pod_collect_to_vec`, which copies the bytes of a page into
/// storage for `u64` values. Claims that each value is the one that its eight
/// bytes hold in the byte order of the machine. The page may start at any
/// address, but has to hold whole values.
#[verifier::external_body]
pub(crate) fn collect_u64(page: &[u8]) -> (values: Vec<u64>)
    requires
        page@.len() % 8 == 0,
    ensures
        values@ == page_values(page@, 8).map_values(|n: nat| n as u64),
{
    bytemuck::pod_collect_to_vec::<u8, u64>(page)
}

/// Calls `bytemuck::cast_slice`, which views `u64` values as their bytes.
/// Claims that there are eight bytes to each value, and that they hold it in
/// the byte order of the machine.
#[verifier::external_body]
pub(crate) fn bytes_of_u64(values: &[u64]) -> (page: Vec<u8>)
    ensures
        page@.len() == 8 * values@.len(),
        page_values(page@, 8).map_values(|n: nat| n as u64) == values@,
{
    bytemuck::cast_slice::<u64, u8>(values).to_vec()
}

} // verus!
