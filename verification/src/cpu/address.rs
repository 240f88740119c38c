//! Arithmetic on bytes and bus addresses.
//!
//! The specification side is plain integer arithmetic; the executable side is
//! the shifting and masking that hardware descriptions use.

use vstd::prelude::*;

verus! {

/// The address whose low byte is `low` and whose high byte is `high`.
pub open spec fn address_of(low: u8, high: u8) -> u16 {
    (high * 256 + low) as u16
}

/// The low byte of `address`.
pub open spec fn low_byte_of(address: u16) -> u8 {
    (address % 256) as u8
}

/// The high byte of `address`, which is the number of its page.
pub open spec fn high_byte_of(address: u16) -> u8 {
    (address / 256) as u8
}

/// The address in page one that the stack pointer `stack_pointer` names.
pub open spec fn stack_address_of(stack_pointer: u8) -> u16 {
    (0x0100 + stack_pointer) as u16
}

/// The sum of two bytes as a byte: the carry is dropped.
pub open spec fn byte_sum(a: u8, b: u8) -> u8 {
    ((a + b) % 256) as u8
}

/// `base + index` inside the zero page: the sum wraps at the page's end.
pub open spec fn zero_page_indexed_of(base: u8, index: u8) -> u16 {
    byte_sum(base, index) as u16
}

/// `high:low + index`, with the carry out of the low byte added to the high
/// byte (and wrapping at the end of the address space).
pub open spec fn indexed_of(low: u8, high: u8, index: u8) -> u16 {
    ((high * 256 + low + index) % 0x1_0000) as u16
}

/// `high:low + index` without the carry into the high byte: the address
/// that the processor puts on the bus before it has fixed the page.
pub open spec fn indexed_in_page_of(low: u8, high: u8, index: u8) -> u16 {
    (high * 256 + (low + index) % 256) as u16
}

/// Whether adding `index` to the low byte `low` carries into the next page.
pub open spec fn crosses_page(low: u8, index: u8) -> bool {
    low + index >= 256
}

/// The branch offset `offset` as the signed number it encodes.
pub open spec fn signed_offset(offset: u8) -> int {
    if offset < 128 {
        offset as int
    } else {
        offset - 256
    }
}

/// Where a taken branch with offset byte `offset` leads from `program_counter`.
pub open spec fn branch_target_of(program_counter: u16, offset: u8) -> u16 {
    ((program_counter + signed_offset(offset)) % 0x1_0000) as u16
}

/// Whether `a` and `b` lie in the same 256-byte page.
pub open spec fn same_page(a: u16, b: u16) -> bool {
    a / 256 == b / 256
}

/// Shifting and masking as arithmetic.
proof fn lemma_byte_arithmetic(low: u8, high: u8, address: u16)
    by (bit_vector)
    ensures
        low as u16 | ((high as u16) << 8) == (high as u16) * 256 + (low as u16),
        (high as u16) * 256 + (low as u16) <= 0xFFFF,
        address & 0x00FF == address % 256,
        address >> 8 == address / 256,
        (address >> 8) < 256,
        low as u16 | 0x0100 == 0x0100 + (low as u16),
{
}

/// Reading a byte as a signed number extends its sign.
proof fn lemma_signed_offset(offset: u8)
    by (bit_vector)
    ensures
        offset < 128 ==> (offset as i8) as i16 == offset as i16,
        offset >= 128 ==> (offset as i8) as i16 == (offset as i16) - 256,
{
}

/// Joins two bytes into an address.
pub fn make_address(low: u8, high: u8) -> (address: u16)
    ensures
        address == address_of(low, high),
{
    proof {
        lemma_byte_arithmetic(low, high, 0);
    }
    low as u16 | ((high as u16) << 8)
}

/// The low byte of an address.
pub fn low_byte(address: u16) -> (byte: u8)
    ensures
        byte == low_byte_of(address),
{
    proof {
        lemma_byte_arithmetic(0, 0, address);
    }
    (address & 0x00FF) as u8
}

/// The high byte of an address.
pub fn high_byte(address: u16) -> (byte: u8)
    ensures
        byte == high_byte_of(address),
{
    proof {
        lemma_byte_arithmetic(0, 0, address);
    }
    (address >> 8) as u8
}

/// The bus address of the stack slot that `stack_pointer` names.
pub fn stack_address(stack_pointer: u8) -> (address: u16)
    ensures
        address == stack_address_of(stack_pointer),
{
    proof {
        lemma_byte_arithmetic(stack_pointer, 0, 0);
    }
    stack_pointer as u16 | 0x0100
}

/// The zero-page address `base + index`, wrapping inside the page.
pub fn zero_page_indexed(base: u8, index: u8) -> (address: u16)
    ensures
        address == zero_page_indexed_of(base, index),
{
    add_bytes(base, index) as u16
}

/// Adding the index leaves the page exactly when the address with the carry
/// differs from the one without.
pub proof fn lemma_crossing_changes_address(low: u8, high: u8, index: u8)
    ensures
        crosses_page(low, index) == (indexed_of(low, high, index) != indexed_in_page_of(
            low,
            high,
            index,
        )),
{
    let base = high * 256 + low;
    if low + index < 256 {
        assert((low + index) % 256 == low + index);
        assert((base + index) % 0x1_0000 == base + index);
    } else {
        assert((low + index) % 256 == low + index - 256);
        if base + index < 0x1_0000 {
            assert((base + index) % 0x1_0000 == base + index);
        } else {
            assert((base + index) % 0x1_0000 == base + index - 0x1_0000);
        }
    }
}

/// The sum of two bytes without the carry.
pub fn add_bytes(a: u8, b: u8) -> (sum: u8)
    ensures
        sum == byte_sum(a, b),
{
    a.wrapping_add(b)
}

/// The address `high:low + index` with the page fixed.
pub fn indexed(low: u8, high: u8, index: u8) -> (address: u16)
    ensures
        address == indexed_of(low, high, index),
        crosses_page(low, index) == (address != indexed_in_page_of(low, high, index)),
{
    proof {
        lemma_crossing_changes_address(low, high, index);
    }
    make_address(low, high).wrapping_add(index as u16)
}

/// The address `high:low + index` before the page is fixed.
pub fn indexed_in_page(low: u8, high: u8, index: u8) -> (address: u16)
    ensures
        address == indexed_in_page_of(low, high, index),
{
    make_address(add_bytes(low, index), high)
}

/// The target of a taken branch.
pub fn branch_target(program_counter: u16, offset: u8) -> (address: u16)
    ensures
        address == branch_target_of(program_counter, offset),
{
    proof {
        lemma_signed_offset(offset);
    }
    program_counter.wrapping_add_signed((offset as i8) as i16)
}

/// Whether two addresses lie in the same page.
pub fn in_same_page(a: u16, b: u16) -> (same: bool)
    ensures
        same == same_page(a, b),
{
    proof {
        lemma_byte_arithmetic(0, 0, a);
        lemma_byte_arithmetic(0, 0, b);
    }
    (a >> 8) == (b >> 8)
}

} // verus!
