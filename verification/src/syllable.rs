//! The syllable codec: the bidirectional mapping between a precomposed Korean
//! syllable character and its triple of initial consonant, medial vowel and
//! optional final consonant.
//!
//! The mapping is fixed-radix positional arithmetic over the contiguous
//! codepoint block U+AC00 to U+D7A3: with `offset = codepoint - 0xAC00`, the
//! final-consonant slot is `offset % 28` (slot 0 meaning no final consonant),
//! the medial vowel is `(offset / 28) % 21`, and the initial consonant is
//! `offset / 588`.  It is a total bijection between the 11172 codepoints of
//! the block and the 19 * 21 * 28 triples.

use vstd::arithmetic::div_mod::lemma_div_denominator;
use vstd::arithmetic::div_mod::lemma_div_pos_is_pos;
use vstd::arithmetic::div_mod::lemma_fundamental_div_mod;
use vstd::arithmetic::div_mod::lemma_fundamental_div_mod_converse_div;
use vstd::arithmetic::div_mod::lemma_fundamental_div_mod_converse_mod;
use vstd::arithmetic::div_mod::lemma_mod_division_less_than_divisor;
use vstd::arithmetic::div_mod::lemma_multiply_divide_lt;
use vstd::prelude::*;
use vstd::utf8::char_u32_cast;

use crate::error::Error;
use crate::jamo::Choseong;
use crate::jamo::Jongseong;
use crate::jamo::Jungseong;

verus! {

/// Whether a character is one of the 11172 precomposed Korean syllables,
/// U+AC00 to U+D7A3.
pub open spec fn is_korean_syllable(c: char) -> bool {
    0xAC00 <= c as int <= 0xD7A3
}

/// The final-consonant slot of the syllable block layout for an optional
/// final consonant: 0 for no final consonant, otherwise the consonant's
/// position shifted past the empty slot.
pub open spec fn final_slot_of(jongseong: Option<Jongseong>) -> int {
    match jongseong {
        Option::None => 0,
        Option::Some(j) => j.ordinal() + 1,
    }
}

/// The syllable with a given decomposition, as a character: the inverse of
/// [`decompose`], total over well-formed triples.
pub open spec fn compose(s: Syllable) -> char {
    s.codepoint() as char
}

/// The decomposition of a precomposed Korean syllable character into its
/// triple, by the fixed-radix arithmetic of the block layout.  Meaningful
/// only when `is_korean_syllable(c)` holds.
pub open spec fn decompose(c: char) -> Syllable {
    let offset = c as int - 0xAC00;
    Syllable {
        choseong: Choseong::of_ordinal(offset / 588),
        jungseong: Jungseong::of_ordinal((offset / 28) % 21),
        jongseong: if offset % 28 == 0 {
            Option::None
        } else {
            Option::Some(Jongseong::of_ordinal(offset % 28 - 1))
        },
    }
}

/// A precomposed Korean syllable, as its three jamo slots: an initial
/// consonant, a medial vowel, and an optional final consonant.
///
/// Every value of this type corresponds to exactly one syllable character
/// and vice versa; no well-formedness condition is needed.
#[derive(Clone, Copy, Debug, PartialEq, Eq, Structural)]
pub struct Syllable {
    pub choseong: Choseong,
    pub jungseong: Jungseong,
    pub jongseong: Option<Jongseong>,
}

impl Syllable {
    /// The codepoint of this syllable under the block layout arithmetic.
    pub open spec fn codepoint(self) -> int {
        0xAC00 + self.choseong.ordinal() * 588 + self.jungseong.ordinal() * 28 + final_slot_of(
            self.jongseong,
        )
    }

    /// Determines if a given character is one of the 11172 precomposed
    /// Korean syllables.
    pub fn is_one_of_us(character: char) -> (r: bool)
        ensures
            r == is_korean_syllable(character),
    {
        let code = character as u32;
        0xAC00 <= code && code <= 0xD7A3
    }

    /// Decomposes a precomposed Korean syllable character; any other
    /// character is rejected with [`Error::NonKorean`].
    pub fn try_from(character: char) -> (r: Result<Syllable, Error>)
        ensures
            is_korean_syllable(character) ==> r == Ok::<Syllable, Error>(decompose(character)),
            !is_korean_syllable(character) ==> r == Err::<Syllable, Error>(
                Error::NonKorean(character),
            ),
    {
        if !Self::is_one_of_us(character) {
            return Err(Error::NonKorean(character));
        }
        let offset = character as u32 - 0xAC00;
        proof {
            lemma_mod_division_less_than_divisor(offset as int, 28);
            lemma_mod_division_less_than_divisor(offset as int / 28, 21);
            lemma_multiply_divide_lt(offset as int, 588, 19);
        }
        Ok(
            Syllable {
                choseong: Choseong::from_ordinal((offset / 588) as u8),
                jungseong: Jungseong::from_ordinal(((offset / 28) % 21) as u8),
                jongseong: final_of_slot((offset % 28) as u8),
            },
        )
    }

    /// The codepoint of this syllable, by the block layout arithmetic.
    pub fn codepoint_value(self) -> (r: u32)
        ensures
            r as int == self.codepoint(),
            0xAC00 <= r <= 0xD7A3,
    {
        let initial = self.choseong.to_ordinal() as u32;
        let medial = self.jungseong.to_ordinal() as u32;
        let slot = slot_of_final(self.jongseong) as u32;
        0xAC00 + initial * 588 + medial * 28 + slot
    }

    /// Recomposes this syllable into its character; total, never fails.
    pub fn to_char(self) -> (r: char)
        ensures
            r == compose(self),
    {
        let code = self.codepoint_value();
        let r = char_from_codepoint(code);
        proof {
            char_u32_cast(r, code);
        }
        r
    }
}

/// The optional final consonant at a given final-consonant slot of the
/// block layout: slot 0 is the empty slot.
pub fn final_of_slot(slot: u8) -> (r: Option<Jongseong>)
    requires
        slot < 28,
    ensures
        final_slot_of(r) == slot as int,
        slot == 0 ==> r is None,
        slot > 0 ==> r == Some(Jongseong::of_ordinal(slot as int - 1)),
{
    if slot == 0 {
        None
    } else {
        Some(Jongseong::from_ordinal(slot - 1))
    }
}

/// The final-consonant slot of an optional final consonant: the inverse of
/// [`final_of_slot`].
pub fn slot_of_final(jongseong: Option<Jongseong>) -> (r: u8)
    ensures
        r as int == final_slot_of(jongseong),
        r < 28,
{
    match jongseong {
        None => 0,
        Some(j) => j.to_ordinal() + 1,
    }
}

/// Relies on char::from_u32: it returns `Some` of the character with the
/// given codepoint for every valid Unicode scalar value, and the precomposed
/// Korean syllable block lies entirely within the scalar values.
#[verifier::external_body]
fn char_from_codepoint(code: u32) -> (r: char)
    requires
        0xAC00 <= code <= 0xD7A3,
    ensures
        r as u32 == code,
{
    char::from_u32(code).unwrap()
}

/// Every well-formed syllable recomposes to a codepoint inside the
/// precomposed Korean syllable block.
pub proof fn lemma_codepoint_in_range(s: Syllable)
    ensures
        0xAC00 <= s.codepoint() <= 0xD7A3,
        is_korean_syllable(compose(s)),
{
    assert(0 <= s.choseong.ordinal() < 19);
    assert(0 <= s.jungseong.ordinal() < 21);
    assert(0 <= final_slot_of(s.jongseong) < 28);
}

/// Round-trip, one direction of the bijection: every character of the
/// precomposed Korean syllable block decomposes into a triple that
/// recomposes to the same character.
pub proof fn lemma_compose_decompose_roundtrip(c: char)
    requires
        is_korean_syllable(c),
    ensures
        compose(decompose(c)) == c,
{
    let offset = c as int - 0xAC00;
    lemma_fundamental_div_mod(offset, 28);
    lemma_fundamental_div_mod(offset / 28, 21);
    lemma_div_pos_is_pos(offset, 28);
    lemma_div_denominator(offset, 28, 21);
    lemma_mod_division_less_than_divisor(offset, 28);
    lemma_mod_division_less_than_divisor(offset / 28, 21);
    lemma_multiply_divide_lt(offset, 588, 19);
    assert(decompose(c).codepoint() == c as int);
    char_u32_cast(c, c as u32);
}

/// Round-trip, the other direction of the bijection: every well-formed
/// triple, recomposed into a character, decomposes back to itself.
pub proof fn lemma_decompose_compose_roundtrip(s: Syllable)
    ensures
        decompose(compose(s)) == s,
{
    lemma_codepoint_in_range(s);
    let initial = s.choseong.ordinal();
    let medial = s.jungseong.ordinal();
    let slot = final_slot_of(s.jongseong);
    let offset = s.codepoint() - 0xAC00;
    assert(offset == (initial * 21 + medial) * 28 + slot);
    lemma_fundamental_div_mod_converse_div(offset, 28, initial * 21 + medial, slot);
    lemma_fundamental_div_mod_converse_mod(offset, 28, initial * 21 + medial, slot);
    lemma_fundamental_div_mod_converse_div(initial * 21 + medial, 21, initial, medial);
    lemma_fundamental_div_mod_converse_mod(initial * 21 + medial, 21, initial, medial);
    lemma_div_pos_is_pos(offset, 28);
    lemma_div_denominator(offset, 28, 21);
    assert(compose(s) as int == s.codepoint());
}

} // verus!
