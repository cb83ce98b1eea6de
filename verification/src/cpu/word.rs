use vstd::prelude::*;

verus! {

/// The low byte of a 16-bit word.
pub open spec fn spec_low_byte(word: u16) -> u8 {
    (word % 256) as u8
}

/// The high byte of a 16-bit word: its page.
pub open spec fn spec_high_byte(word: u16) -> u8 {
    (word / 256) as u8
}

/// The word with the given low and high bytes.
pub open spec fn spec_make_word(low: u8, high: u8) -> u16 {
    (low + 256 * high) as u16
}

/// Whether two addresses lie on one 256-byte page.
pub open spec fn spec_same_page(first: u16, second: u16) -> bool {
    first / 256 == second / 256
}

/// A signed 8-bit displacement widened to 16 bits: bytes from 0x80 up stand
/// for the negative numbers and get 0xFF as their high byte.
pub open spec fn spec_sign_extend(displacement: u8) -> u16 {
    if displacement >= 0x80 {
        (0xFF00 + displacement) as u16
    } else {
        displacement as u16
    }
}

#[verifier::when_used_as_spec(spec_low_byte)]
pub fn low_byte(word: u16) -> (byte: u8)
    ensures
        byte == spec_low_byte(word),
{
    (word % 256) as u8
}

#[verifier::when_used_as_spec(spec_high_byte)]
pub fn high_byte(word: u16) -> (byte: u8)
    ensures
        byte == spec_high_byte(word),
{
    (word / 256) as u8
}

#[verifier::when_used_as_spec(spec_make_word)]
pub fn make_word(low: u8, high: u8) -> (word: u16)
    ensures
        word == spec_make_word(low, high),
{
    low as u16 + 256 * (high as u16)
}

#[verifier::when_used_as_spec(spec_same_page)]
pub fn same_page(first: u16, second: u16) -> (same: bool)
    ensures
        same == spec_same_page(first, second),
{
    first / 256 == second / 256
}

#[verifier::when_used_as_spec(spec_sign_extend)]
pub fn sign_extend(displacement: u8) -> (offset: u16)
    ensures
        offset == spec_sign_extend(displacement),
{
    if displacement >= 0x80 {
        0xFF00 + displacement as u16
    } else {
        displacement as u16
    }
}

/// A word is made of its two bytes, and gives them back.
pub proof fn lemma_word_bytes(word: u16, low: u8, high: u8)
    ensures
        make_word(low_byte(word), high_byte(word)) == word,
        low_byte(make_word(low, high)) == low,
        high_byte(make_word(low, high)) == high,
{
}

} // verus!
