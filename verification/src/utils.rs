use vstd::prelude::*;

verus! {

/// Whether bit `index` of `byte` is one.
pub open spec fn bit_is_set(byte: u8, index: u8) -> bool {
    (byte >> index) & 1 == 1
}

pub fn is_bit_set(byte: u8, index: u8) -> (result: bool)
    requires
        index < 8,
    ensures
        result == bit_is_set(byte, index),
{
    (byte >> index) & 1 == 1
}

pub fn get_bit(byte: u8, index: u8) -> (result: u8)
    requires
        index < 8,
    ensures
        result == (byte >> index) & 1,
        result <= 1,
        result == 1 <==> bit_is_set(byte, index),
{
    let r = (byte >> index) & 1;
    assert(r <= 1) by (bit_vector)
        requires r == (byte >> index) & 1;
    r
}

pub fn set_bit(byte: u8, index: u8) -> (result: u8)
    requires
        index < 8,
    ensures
        result == byte | ((1u8 << index) as u8),
{
    byte | (1u8 << index)
}

pub fn reset_bit(byte: u8, index: u8) -> (result: u8)
    requires
        index < 8,
    ensures
        result == byte & !((1u8 << index) as u8),
{
    byte & !(1u8 << index)
}

/// Combines a little-endian pair of bytes into a word.
pub fn as_word(first_byte: u8, second_byte: u8) -> (word: u16)
    ensures
        word == second_byte as int * 256 + first_byte as int,
{
    (second_byte as u16) * 256 + (first_byte as u16)
}

/// Splits a word into its little-endian pair of bytes.
pub fn as_bytes(word: u16) -> (bytes: (u8, u8))
    ensures
        bytes.0 == word % 256,
        bytes.1 == word / 256,
{
    ((word % 256) as u8, (word / 256) as u8)
}

/// Number of clock cycles that one machine cycle advances the clock.
pub open spec fn t_cycle_increment(double_speed_mode: bool) -> u8 {
    if double_speed_mode { 2 } else { 4 }
}

pub fn get_t_cycle_increment(double_speed_mode: bool) -> (result: u8)
    ensures
        result == t_cycle_increment(double_speed_mode),
{
    if double_speed_mode { 2 } else { 4 }
}

} // verus!

verus! {

/// Masking a byte never makes it larger than the mask or the byte.
pub proof fn lemma_u8_and_bound(x: u8, m: u8)
    ensures
        x & m <= m,
        x & m <= x,
{
    assert(x & m <= m && x & m <= x) by (bit_vector);
}

/// Masking a word never makes it larger than the mask or the word.
pub proof fn lemma_u16_and_bound(x: u16, m: u16)
    ensures
        x & m <= m,
        x & m <= x,
{
    assert(x & m <= m && x & m <= x) by (bit_vector);
}

} // verus!

verus! {

/// Shifting a word right never makes it larger.
pub proof fn lemma_u16_shr_bound(x: u16, s: u16)
    ensures
        x >> s <= x,
{
    assert(x >> s <= x) by (bit_vector);
}

} // verus!
