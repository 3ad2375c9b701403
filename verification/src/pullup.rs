//! The choseong pull-up transform: a single left-to-right pass with one
//! character of lookahead that, at each adjacent pair of Korean syllables,
//! consults the pull-up rule table and moves the following syllable's
//! initial consonant backward onto the current syllable's final-consonant
//! slot.
//!
//! The pass carries a single pending flag between iterations: when a rule
//! fires on a pair, the current syllable's final consonant is rewritten at
//! once, and the flag records that the next syllable's initial consonant
//! must be overwritten with the zero initial when that syllable is reached.
//! Characters that are not Korean syllables pass through unchanged, and the
//! pending flag persists across them: a run of punctuation or foreign
//! script between two syllables does not reset it, so liaison carries over
//! such a run.  That carry-over is a documented quirk of this transform,
//! not an accident of the code.

use vstd::prelude::*;
use vstd::string::StrSliceExecFns;

use crate::chars::push_char;
use crate::jamo::Choseong;
use crate::rules::pullup_lookup;
use crate::rules::pullup_rule;
use crate::syllable::compose;
use crate::syllable::decompose;
use crate::syllable::is_korean_syllable;
use crate::syllable::Syllable;

verus! {

/// The current syllable at the start of an iteration: when the pending flag
/// is set, its initial consonant is overwritten with the zero initial.
pub open spec fn pullup_current(c: Syllable, pending: bool) -> Syllable {
    if pending {
        Syllable { choseong: Choseong::Ieung, jungseong: c.jungseong, jongseong: c.jongseong }
    } else {
        c
    }
}

/// The output of the pull-up scan from position `i` on, entered with the
/// given pending flag.
pub open spec fn pullup_from(s: Seq<char>, i: int, pending: bool, extended: bool) -> Seq<char>
    decreases s.len() - i,
{
    if i >= s.len() {
        Seq::empty()
    } else if !is_korean_syllable(s[i]) {
        seq![s[i]] + pullup_from(s, i + 1, pending, extended)
    } else {
        let cur = pullup_current(decompose(s[i]), pending);
        if i + 1 < s.len() && is_korean_syllable(s[i + 1]) {
            let next = decompose(s[i + 1]);
            match pullup_rule(cur.jongseong, next.choseong, extended) {
                Option::Some(j) => seq![
                    compose(
                        Syllable {
                            choseong: cur.choseong,
                            jungseong: cur.jungseong,
                            jongseong: Option::Some(j),
                        },
                    ),
                ] + pullup_from(s, i + 1, true, extended),
                Option::None => seq![compose(cur)] + pullup_from(s, i + 1, false, extended),
            }
        } else {
            seq![compose(cur)] + pullup_from(s, i + 1, false, extended)
        }
    }
}

/// What the pull-up transform returns on a character sequence.
pub open spec fn pullup_spec(s: Seq<char>, extended: bool) -> Seq<char> {
    pullup_from(s, 0, false, extended)
}

/// The pull-up transform under the ordinary (phonetic) rule set.
pub fn pullup_choseong(source: &str) -> (r: String)
    ensures
        r@ == pullup_spec(source@, false),
{
    pullup_choseong_config(source, false)
}

/// The pull-up transform; the flag opts in to the extended (colloquial,
/// non-phonetic) rule set.
pub fn pullup_choseong_config(source: &str, extended_flag: bool) -> (r: String)
    ensures
        r@ == pullup_spec(source@, extended_flag),
{
    let ghost s = source@;
    let n = source.unicode_len();
    let mut destination = String::new();
    let mut pending = false;
    let mut i: usize = 0;
    while i < n
        invariant
            s == source@,
            n == s.len(),
            i <= n,
            pullup_spec(s, extended_flag) == destination@ + pullup_from(
                s,
                i as int,
                pending,
                extended_flag,
            ),
        decreases n - i,
    {
        let ghost destination0 = destination@;
        let ghost pending0 = pending;
        let c = source.get_char(i);
        if !Syllable::is_one_of_us(c) {
            push_char(&mut destination, c);
        } else {
            let mut cur = Syllable::try_from(c).unwrap();
            if pending {
                cur.choseong = Choseong::Ieung;
                pending = false;
            }
            if i + 1 < n {
                let next_c = source.get_char(i + 1);
                if Syllable::is_one_of_us(next_c) {
                    let next = Syllable::try_from(next_c).unwrap();
                    match pullup_lookup(cur.jongseong, next.choseong, extended_flag) {
                        Some(j) => {
                            cur.jongseong = Some(j);
                            pending = true;
                        },
                        None => {},
                    }
                }
            }
            push_char(&mut destination, cur.to_char());
        }
        proof {
            assert(destination@ + pullup_from(s, i + 1, pending, extended_flag)
                =~= destination0 + pullup_from(s, i as int, pending0, extended_flag));
        }
        i = i + 1;
    }
    proof {
        assert(destination@ + pullup_from(s, n as int, pending, extended_flag) =~= destination@);
    }
    destination
}

proof fn lemma_pullup_from_len(s: Seq<char>, i: int, pending: bool, extended: bool)
    requires
        0 <= i <= s.len(),
    ensures
        pullup_from(s, i, pending, extended).len() == s.len() - i,
    decreases s.len() - i,
{
    if i < s.len() {
        if !is_korean_syllable(s[i]) {
            lemma_pullup_from_len(s, i + 1, pending, extended);
        } else {
            lemma_pullup_from_len(s, i + 1, true, extended);
            lemma_pullup_from_len(s, i + 1, false, extended);
        }
    }
}

/// Length preservation: the pull-up transform emits exactly one character
/// for each character of its input.
pub proof fn lemma_pullup_preserves_count(s: Seq<char>, extended: bool)
    ensures
        pullup_spec(s, extended).len() == s.len(),
{
    lemma_pullup_from_len(s, 0, false, extended);
}

proof fn lemma_pullup_from_identity(s: Seq<char>, i: int, pending: bool, extended: bool)
    requires
        0 <= i <= s.len(),
        forall|j: int| i <= j < s.len() ==> !is_korean_syllable(s[j]),
    ensures
        pullup_from(s, i, pending, extended) == s.subrange(i, s.len() as int),
    decreases s.len() - i,
{
    if i < s.len() {
        lemma_pullup_from_identity(s, i + 1, pending, extended);
    }
    assert(pullup_from(s, i, pending, extended) =~= s.subrange(i, s.len() as int));
}

/// Non-Hangul identity: on a sequence containing no Korean syllables the
/// pull-up transform is the identity, under either rule set.
pub proof fn lemma_pullup_non_hangul_identity(s: Seq<char>, extended: bool)
    requires
        forall|j: int| 0 <= j < s.len() ==> !is_korean_syllable(s[j]),
    ensures
        pullup_spec(s, extended) == s,
{
    lemma_pullup_from_identity(s, 0, false, extended);
    assert(s.subrange(0, s.len() as int) =~= s);
}

/// Whether the pull-up scan from position `i` on, entered with the given
/// pending flag, never meets the trigger condition of an extended-only
/// rule: at every consulted syllable pair the ordinary and the extended
/// table agree.
pub open spec fn pullup_ordinary_only(s: Seq<char>, i: int, pending: bool) -> bool
    decreases s.len() - i,
{
    if i >= s.len() {
        true
    } else if !is_korean_syllable(s[i]) {
        pullup_ordinary_only(s, i + 1, pending)
    } else {
        let cur = pullup_current(decompose(s[i]), pending);
        if i + 1 < s.len() && is_korean_syllable(s[i + 1]) {
            let next = decompose(s[i + 1]);
            pullup_rule(cur.jongseong, next.choseong, true) == pullup_rule(
                cur.jongseong,
                next.choseong,
                false,
            ) && (match pullup_rule(cur.jongseong, next.choseong, false) {
                Option::Some(_) => pullup_ordinary_only(s, i + 1, true),
                Option::None => pullup_ordinary_only(s, i + 1, false),
            })
        } else {
            pullup_ordinary_only(s, i + 1, false)
        }
    }
}

proof fn lemma_pullup_from_extended_agrees(s: Seq<char>, i: int, pending: bool)
    requires
        0 <= i <= s.len(),
        pullup_ordinary_only(s, i, pending),
    ensures
        pullup_from(s, i, pending, true) == pullup_from(s, i, pending, false),
    decreases s.len() - i,
{
    if i < s.len() {
        if !is_korean_syllable(s[i]) {
            lemma_pullup_from_extended_agrees(s, i + 1, pending);
        } else {
            let cur = pullup_current(decompose(s[i]), pending);
            if i + 1 < s.len() && is_korean_syllable(s[i + 1]) {
                let next = decompose(s[i + 1]);
                match pullup_rule(cur.jongseong, next.choseong, false) {
                    Option::Some(_) => lemma_pullup_from_extended_agrees(s, i + 1, true),
                    Option::None => lemma_pullup_from_extended_agrees(s, i + 1, false),
                }
            } else {
                lemma_pullup_from_extended_agrees(s, i + 1, false);
            }
        }
    }
}

/// Monotone rule-set inclusion over a whole scan: on an input whose scan
/// never meets an extended-only rule's trigger condition, the extended-mode
/// output equals the ordinary-mode output — the extended rule set can only
/// change the output where an extended rule fires.
pub proof fn lemma_pullup_extended_agrees(s: Seq<char>)
    requires
        pullup_ordinary_only(s, 0, false),
    ensures
        pullup_spec(s, true) == pullup_spec(s, false),
{
    lemma_pullup_from_extended_agrees(s, 0, false);
}

} // verus!
