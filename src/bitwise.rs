//! Byte and bit helpers over the processor's 8- and 16-bit words.

use vstd::prelude::*;

verus! {

/// The low byte of a 16-bit word.
pub open spec fn low_byte(w: u16) -> u8 {
    (w % 256) as u8
}

/// The high byte of a 16-bit word.
pub open spec fn high_byte(w: u16) -> u8 {
    (w / 256) as u8
}

/// The word whose high byte is `hi` and whose low byte is `lo`.
pub open spec fn word_of(hi: u8, lo: u8) -> u16 {
    (hi as int * 256 + lo as int) as u16
}

/// Replaces the low byte of `of` with `to`.
pub fn set_least(of: u16, to: u8) -> (r: u16)
    ensures
        r == word_of(high_byte(of), to),
{
    let r = (of & 0xFF00) | to as u16;
    assert(r == ((of / 256) * 256 + to) as u16) by (bit_vector)
        requires r == (of & 0xFF00) | to as u16;
    r
}

/// The low byte of `of`.
pub fn get_least(of: u16) -> (r: u8)
    ensures
        r == low_byte(of),
{
    let r = of as u8;
    assert(r == of % 256) by (bit_vector)
        requires r == of as u8;
    r
}

/// Replaces the high byte of `of` with `to`.
pub fn set_most(of: u16, to: u8) -> (r: u16)
    ensures
        r == word_of(to, low_byte(of)),
{
    let r = (of & 0x00FF) | (to as u16) << 8;
    assert(r == (to as u16 * 256 + of % 256) as u16) by (bit_vector)
        requires r == (of & 0x00FF) | (to as u16) << 8;
    r
}

/// The high byte of `of`.
pub fn get_most(of: u16) -> (r: u8)
    ensures
        r == high_byte(of),
{
    let r = (of >> 8) as u8;
    assert(r == of / 256) by (bit_vector)
        requires r == (of >> 8) as u8;
    r
}

/// The single-bit mask for bit `at` of a byte.
pub open spec fn bit_mask(at: usize) -> u8 {
    1u8 << (at as u8)
}

/// Flips bit `at` of `of`; `None` when the byte has no such bit.
pub fn flip_bit(at: usize, of: u8) -> (r: Option<u8>)
    ensures
        r == (if at < 8 {
            Some(of ^ bit_mask(at))
        } else {
            None
        }),
{
    if at >= 8 {
        return None;
    }
    Some(of ^ (1u8 << (at as u8)))
}

/// Sets bit `at` of `of`; `None` when the byte has no such bit.
pub fn set_bit(at: usize, of: u8) -> (r: Option<u8>)
    ensures
        r == (if at < 8 {
            Some(of | bit_mask(at))
        } else {
            None
        }),
{
    if at >= 8 {
        return None;
    }
    Some(of | (1u8 << (at as u8)))
}

/// Clears bit `at` of `of`; `None` when the byte has no such bit.
pub fn unset_bit(at: usize, of: u8) -> (r: Option<u8>)
    ensures
        r == (if at < 8 {
            Some(of & !bit_mask(at))
        } else {
            None
        }),
{
    if at >= 8 {
        return None;
    }
    Some(of & !(1u8 << (at as u8)))
}

/// Whether bit `at` of `of` is set; `None` when the byte has no such bit.
pub fn isset_bit(at: usize, of: u8) -> (r: Option<bool>)
    ensures
        r == (if at < 8 {
            Some(of & bit_mask(at) != 0)
        } else {
            None
        }),
{
    if at >= 8 {
        return None;
    }
    let sh = at as u8;
    let r = (of >> sh) & 1 == 1;
    assert(r == (of & (1u8 << sh) != 0)) by (bit_vector)
        requires
            sh < 8,
            r == ((of >> sh) & 1 == 1),
    ;
    Some(r)
}

} // verus!
