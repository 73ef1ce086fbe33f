//! Hexadecimal text for generated bytes.

use vstd::prelude::*;

verus! {

/// `String::push` appends the given character to the end of the string.
pub assume_specification[ String::push ](text: &mut String, ch: char)
    ensures
        final(text)@ == old(text)@.push(ch),
;

/// The lower-case hexadecimal digit for a value below sixteen.
pub open spec fn hex_digit(value: u8) -> char {
    if value < 10 {
        (value + 48) as char
    } else {
        (value + 87) as char
    }
}

/// The bytes of `bytes` in lower-case hexadecimal, two digits each, the
/// high half first.
pub open spec fn hex_of(bytes: Seq<u8>) -> Seq<char>
    decreases bytes.len(),
{
    if bytes.len() == 0 {
        Seq::empty()
    } else {
        hex_of(bytes.drop_last()).push(hex_digit(bytes.last() >> 4)).push(
            hex_digit(bytes.last() & 0x0f),
        )
    }
}

/// Returns the lower-case hexadecimal digit for a value below sixteen.
fn digit(value: u8) -> (ch: char)
    requires
        value < 16,
    ensures
        ch == hex_digit(value),
{
    if value < 10 {
        (value + 48) as char
    } else {
        (value + 87) as char
    }
}

/// Writes `bytes` in lower-case hexadecimal, two digits for each byte.
pub fn to_hex(bytes: &[u8]) -> (text: String)
    ensures
        text@ == hex_of(bytes@),
        text@.len() == 2 * bytes@.len(),
{
    let mut text = String::new();
    let mut i: usize = 0;
    while i < bytes.len()
        invariant
            i <= bytes@.len(),
            text@ == hex_of(bytes@.take(i as int)),
            text@.len() == 2 * i,
        decreases bytes@.len() - i,
    {
        let byte = bytes[i];
        assert(byte >> 4 < 16 && byte & 0x0f < 16) by (bit_vector);
        proof {
            let next = bytes@.take(i + 1);
            assert(next.drop_last() == bytes@.take(i as int));
            assert(next.last() == byte);
        }
        text.push(digit(byte >> 4));
        text.push(digit(byte & 0x0f));
        i = i + 1;
    }
    proof {
        assert(bytes@.take(i as int) == bytes@);
    }
    text
}

} // verus!
