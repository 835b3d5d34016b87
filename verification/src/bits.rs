//! Single-bit access to a register byte.
//!
//! Every register of the expander is one byte per bank, and bit `i` of that
//! byte stands for pin `i` of the bank. The functions here read and change
//! one bit; the lemmas state how such changes interact.

use vstd::prelude::*;

verus! {

/// Whether bit `index` of `byte` is set. Bit 0 is the least significant one.
pub open spec fn bit_is_set(byte: u8, index: u8) -> bool {
    byte & (1u8 << index) != 0
}

/// `byte` with bit `index` made equal to `level`.
pub open spec fn with_bit(byte: u8, index: u8, level: bool) -> u8 {
    if level {
        byte | (1u8 << index)
    } else {
        byte & !(1u8 << index)
    }
}

/// Reads bit `index` of `byte`.
pub fn test_bit(byte: u8, index: u8) -> (set: bool)
    requires
        index < 8,
    ensures
        set == bit_is_set(byte, index),
{
    byte & (1u8 << index) != 0
}

/// Returns `byte` with bit `index` made equal to `level`.
pub fn assign_bit(byte: u8, index: u8, level: bool) -> (changed: u8)
    requires
        index < 8,
    ensures
        changed == with_bit(byte, index, level),
{
    if level {
        byte | (1u8 << index)
    } else {
        byte & !(1u8 << index)
    }
}

/// After a bit has been assigned it reads as the assigned level, and every
/// other bit reads as before.
pub proof fn lemma_bit_after_assign(byte: u8, index: u8, level: bool, other: u8)
    requires
        index < 8,
        other < 8,
    ensures
        bit_is_set(with_bit(byte, index, level), other) == (if other == index {
            level
        } else {
            bit_is_set(byte, other)
        }),
{
    assert(((byte | (1u8 << index)) & (1u8 << index)) != 0) by (bit_vector)
        requires
            index < 8,
    ;
    assert(((byte & !(1u8 << index)) & (1u8 << index)) == 0) by (bit_vector)
        requires
            index < 8,
    ;
    assert(other != index ==> ((byte | (1u8 << index)) & (1u8 << other)) == (byte & (1u8 << other)))
        by (bit_vector)
        requires
            index < 8,
            other < 8,
    ;
    assert(other != index ==> ((byte & !(1u8 << index)) & (1u8 << other)) == (byte & (1u8
        << other))) by (bit_vector)
        requires
            index < 8,
            other < 8,
    ;
}

/// Assigning a bit the level it already has changes nothing.
pub proof fn lemma_assign_current_level(byte: u8, index: u8)
    requires
        index < 8,
    ensures
        with_bit(byte, index, bit_is_set(byte, index)) == byte,
{
    assert((byte & (1u8 << index)) != 0 ==> (byte | (1u8 << index)) == byte) by (bit_vector)
        requires
            index < 8,
    ;
    assert((byte & (1u8 << index)) == 0 ==> (byte & !(1u8 << index)) == byte) by (bit_vector)
        requires
            index < 8,
    ;
}

/// Assigning the same bit twice is the same as making the second assignment
/// alone.
pub proof fn lemma_assign_overwrites(byte: u8, index: u8, first: bool, second: bool)
    requires
        index < 8,
    ensures
        with_bit(with_bit(byte, index, first), index, second) == with_bit(byte, index, second),
{
    let m = 1u8 << index;
    assert(((byte | m) | m) == (byte | m)) by (bit_vector);
    assert(((byte & !m) | m) == (byte | m)) by (bit_vector);
    assert(((byte | m) & !m) == (byte & !m)) by (bit_vector);
    assert(((byte & !m) & !m) == (byte & !m)) by (bit_vector);
}

/// Assignments to two different bits can be made in either order.
pub proof fn lemma_assign_commutes(byte: u8, i: u8, a: bool, j: u8, b: bool)
    requires
        i < 8,
        j < 8,
        i != j,
    ensures
        with_bit(with_bit(byte, i, a), j, b) == with_bit(with_bit(byte, j, b), i, a),
{
    let m = 1u8 << i;
    let n = 1u8 << j;
    assert(m & n == 0) by (bit_vector)
        requires
            i < 8,
            j < 8,
            i != j,
            m == 1u8 << i,
            n == 1u8 << j,
    ;
    assert(((byte | m) | n) == ((byte | n) | m)) by (bit_vector);
    assert(((byte & !m) & !n) == ((byte & !n) & !m)) by (bit_vector);
    assert(m & n == 0 ==> ((byte | m) & !n) == ((byte & !n) | m)) by (bit_vector);
    assert(m & n == 0 ==> ((byte & !m) | n) == ((byte | n) & !m)) by (bit_vector);
}

/// A byte is determined by its eight bits.
pub proof fn lemma_bits_determine_byte(a: u8, b: u8)
    requires
        forall|index: u8| index < 8 ==> bit_is_set(a, index) == bit_is_set(b, index),
    ensures
        a == b,
{
    assert(bit_is_set(a, 0) == bit_is_set(b, 0));
    assert(bit_is_set(a, 1) == bit_is_set(b, 1));
    assert(bit_is_set(a, 2) == bit_is_set(b, 2));
    assert(bit_is_set(a, 3) == bit_is_set(b, 3));
    assert(bit_is_set(a, 4) == bit_is_set(b, 4));
    assert(bit_is_set(a, 5) == bit_is_set(b, 5));
    assert(bit_is_set(a, 6) == bit_is_set(b, 6));
    assert(bit_is_set(a, 7) == bit_is_set(b, 7));
    assert(a == b) by (bit_vector)
        requires
            (a & (1u8 << 0u8) != 0) == (b & (1u8 << 0u8) != 0),
            (a & (1u8 << 1u8) != 0) == (b & (1u8 << 1u8) != 0),
            (a & (1u8 << 2u8) != 0) == (b & (1u8 << 2u8) != 0),
            (a & (1u8 << 3u8) != 0) == (b & (1u8 << 3u8) != 0),
            (a & (1u8 << 4u8) != 0) == (b & (1u8 << 4u8) != 0),
            (a & (1u8 << 5u8) != 0) == (b & (1u8 << 5u8) != 0),
            (a & (1u8 << 6u8) != 0) == (b & (1u8 << 6u8) != 0),
            (a & (1u8 << 7u8) != 0) == (b & (1u8 << 7u8) != 0),
    ;
}

} // verus!
