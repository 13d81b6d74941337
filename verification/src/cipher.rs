//! A per-letter substitution cipher.
//!
//! Each ASCII letter is moved 13 places on within its own case, with the
//! offset reduced modulo 23; every other character is kept as it is. Because
//! the modulus is 23 and not 26, this is not the classical rotation by 13: the
//! substitution is not a permutation of the alphabet and cannot be undone.

use vstd::prelude::*;

verus! {

/// How far a letter is moved on.
pub const ROT: u8 = 13;

/// The modulus that the moved offset is reduced by.
pub const MODULUS: u8 = 23;

/// Whether `c` is one of `'a'..='z'`.
pub open spec fn is_lower(c: char) -> bool {
    'a' <= c && c <= 'z'
}

/// Whether `c` is one of `'A'..='Z'`.
pub open spec fn is_upper(c: char) -> bool {
    'A' <= c && c <= 'Z'
}

/// Whether `c` is an ASCII letter.
pub open spec fn is_letter(c: char) -> bool {
    is_lower(c) || is_upper(c)
}

/// The letter that stands `(offset + 13) mod 23` places after `base`, where
/// `offset` is the place of `c` after `base`.
pub open spec fn moved_from(base: char, c: char) -> char {
    (base as int + (c as int - base as int + ROT as int) % (MODULUS as int)) as char
}

/// What the cipher makes of one character.
pub open spec fn rotated(c: char) -> char {
    if is_lower(c) {
        moved_from('a', c)
    } else if is_upper(c) {
        moved_from('A', c)
    } else {
        c
    }
}

/// What the cipher makes of a text: each character on its own, in place.
pub open spec fn transformed(s: Seq<char>) -> Seq<char> {
    Seq::new(s.len(), |i: int| rotated(s[i]))
}

/// Applies the cipher to one character.
pub fn rotate(symbol: char) -> (c: char)
    ensures
        c == rotated(symbol),
        !is_letter(symbol) ==> c == symbol,
        is_lower(symbol) ==> is_lower(c),
        is_upper(symbol) ==> is_upper(c),
{
    if symbol >= 'a' && symbol <= 'z' {
        ((symbol as u8 - 'a' as u8 + ROT) % MODULUS + 'a' as u8) as char
    } else if symbol >= 'A' && symbol <= 'Z' {
        ((symbol as u8 - 'A' as u8 + ROT) % MODULUS + 'A' as u8) as char
    } else {
        symbol
    }
}

/// Applies the cipher to a text.
///
/// The result has as many characters as the input, and every character that
/// is not an ASCII letter stands unchanged at its place.
pub fn transform(input: &str) -> (out: String)
    ensures
        out@ == transformed(input@),
        out@.len() == input@.len(),
        forall|i: int|
            0 <= i < input@.len() && !is_letter(#[trigger] input@[i]) ==> out@[i] == input@[i],
{
    let mut out = String::new();
    for symbol in it: input.chars()
        invariant
            it.seq() == input@,
            out@.len() == it.index(),
            forall|j: int| 0 <= j < it.index() ==> out@[j] == rotated(#[trigger] input@[j]),
    {
        out.push(rotate(symbol));
    }
    assert(out@ =~= transformed(input@));
    out
}

} // verus!
