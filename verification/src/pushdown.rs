//! The jongseong push-down transform: the inverse simulation of the
//! pull-up pass.  A single left-to-right pass with one character of
//! lookahead that, at each adjacent pair of Korean syllables whose second
//! member starts with the zero initial, consults the push-down rule table
//! and moves the current syllable's final consonant forward onto the
//! following syllable's initial slot.
//!
//! The pass carries one pending initial consonant between iterations: when
//! a rule fires on a pair, the current syllable's final consonant is
//! rewritten at once, and the pending slot records the initial consonant to
//! force onto the next syllable when it is reached.  Before the table is
//! consulted, a palatalization guard suppresses the pair when the current
//! final consonant is d or t and the next medial vowel is iotated, unless
//! the extended rule set is active.  Characters that are not Korean
//! syllables pass through unchanged, and the pending slot persists across
//! them, the same carry-over quirk as in the pull-up pass.

use vstd::prelude::*;
use vstd::string::StrSliceExecFns;

use crate::chars::push_char;
use crate::jamo::Choseong;
use crate::rules::is_palatal_guarded;
use crate::rules::pushdown_action;
use crate::rules::pushdown_lookup;
use crate::syllable::compose;
use crate::syllable::decompose;
use crate::syllable::is_korean_syllable;
use crate::syllable::Syllable;

verus! {

/// The current syllable at the start of an iteration: a pending initial
/// consonant, when present, overwrites the syllable's own.
pub open spec fn pushdown_current(c: Syllable, pending: Option<Choseong>) -> Syllable {
    match pending {
        Option::Some(initial) => Syllable {
            choseong: initial,
            jungseong: c.jungseong,
            jongseong: c.jongseong,
        },
        Option::None => c,
    }
}

/// The output of the push-down scan from position `i` on, entered with the
/// given pending initial consonant.
pub open spec fn pushdown_from(
    s: Seq<char>,
    i: int,
    pending: Option<Choseong>,
    extended: bool,
) -> Seq<char>
    decreases s.len() - i,
{
    if i >= s.len() {
        Seq::empty()
    } else if !is_korean_syllable(s[i]) {
        seq![s[i]] + pushdown_from(s, i + 1, pending, extended)
    } else {
        let cur = pushdown_current(decompose(s[i]), pending);
        if i + 1 < s.len() && is_korean_syllable(s[i + 1]) {
            let next = decompose(s[i + 1]);
            match pushdown_action(cur, next, extended) {
                Option::Some(act) => seq![
                    compose(
                        Syllable {
                            choseong: cur.choseong,
                            jungseong: cur.jungseong,
                            jongseong: act.0,
                        },
                    ),
                ] + pushdown_from(s, i + 1, Option::Some(act.1), extended),
                Option::None => seq![compose(cur)] + pushdown_from(s, i + 1, Option::None, extended),
            }
        } else {
            seq![compose(cur)] + pushdown_from(s, i + 1, Option::None, extended)
        }
    }
}

/// What the push-down transform returns on a character sequence.
pub open spec fn pushdown_spec(s: Seq<char>, extended: bool) -> Seq<char> {
    pushdown_from(s, 0, Option::None, extended)
}

/// The push-down transform under the ordinary (phonetic) rule set.
pub fn pushdown_jongseong(source: &str) -> (r: String)
    ensures
        r@ == pushdown_spec(source@, false),
{
    pushdown_jongseong_config(source, false)
}

/// The push-down transform; the flag opts in to the extended (colloquial,
/// non-phonetic) rule set and lifts the palatalization guard.
#[verifier::rlimit(60)]
pub fn pushdown_jongseong_config(source: &str, extended_flag: bool) -> (r: String)
    ensures
        r@ == pushdown_spec(source@, extended_flag),
{
    let ghost s = source@;
    let n = source.unicode_len();
    let mut destination = String::new();
    let mut pending: Option<Choseong> = None;
    let mut i: usize = 0;
    while i < n
        invariant
            s == source@,
            n == s.len(),
            i <= n,
            pushdown_spec(s, extended_flag) == destination@ + pushdown_from(
                s,
                i as int,
                pending,
                extended_flag,
            ),
        decreases n - i,
    {
        let ghost destination0 = destination@;
        let ghost pending0 = pending;
        let c = source.get_char(i);
        if !Syllable::is_one_of_us(c) {
            push_char(&mut destination, c);
        } else {
            let mut cur = Syllable::try_from(c).unwrap();
            match pending {
                Some(initial) => {
                    cur.choseong = initial;
                    pending = None;
                },
                None => {},
            }
            if i + 1 < n {
                let next_c = source.get_char(i + 1);
                if Syllable::is_one_of_us(next_c) {
                    let next = Syllable::try_from(next_c).unwrap();
                    if !is_palatal_guarded(cur.jongseong, next.jungseong) || extended_flag {
                        if next.choseong == Choseong::Ieung {
                            match cur.jongseong {
                                Some(current_final) => {
                                    match pushdown_lookup(current_final, extended_flag) {
                                        Some((new_final, new_initial)) => {
                                            cur.jongseong = new_final;
                                            pending = Some(new_initial);
                                        },
                                        None => {},
                                    }
                                },
                                None => {},
                            }
                        }
                    }
                }
            }
            push_char(&mut destination, cur.to_char());
        }
        proof {
            assert(destination@ + pushdown_from(s, i + 1, pending, extended_flag)
                =~= destination0 + pushdown_from(s, i as int, pending0, extended_flag));
        }
        i = i + 1;
    }
    proof {
        assert(destination@ + pushdown_from(s, n as int, pending, extended_flag) =~= destination@);
    }
    destination
}

proof fn lemma_pushdown_from_len(s: Seq<char>, i: int, pending: Option<Choseong>, extended: bool)
    requires
        0 <= i <= s.len(),
    ensures
        pushdown_from(s, i, pending, extended).len() == s.len() - i,
    decreases s.len() - i,
{
    if i < s.len() {
        if !is_korean_syllable(s[i]) {
            lemma_pushdown_from_len(s, i + 1, pending, extended);
        } else {
            let cur = pushdown_current(decompose(s[i]), pending);
            if i + 1 < s.len() && is_korean_syllable(s[i + 1]) {
                let next = decompose(s[i + 1]);
                match pushdown_action(cur, next, extended) {
                    Option::Some(act) => lemma_pushdown_from_len(
                        s,
                        i + 1,
                        Option::Some(act.1),
                        extended,
                    ),
                    Option::None => lemma_pushdown_from_len(s, i + 1, Option::None, extended),
                }
            } else {
                lemma_pushdown_from_len(s, i + 1, Option::None, extended);
            }
        }
    }
}

/// Length preservation: the push-down transform emits exactly one character
/// for each character of its input.
pub proof fn lemma_pushdown_preserves_count(s: Seq<char>, extended: bool)
    ensures
        pushdown_spec(s, extended).len() == s.len(),
{
    lemma_pushdown_from_len(s, 0, Option::None, extended);
}

proof fn lemma_pushdown_from_identity(
    s: Seq<char>,
    i: int,
    pending: Option<Choseong>,
    extended: bool,
)
    requires
        0 <= i <= s.len(),
        forall|j: int| i <= j < s.len() ==> !is_korean_syllable(s[j]),
    ensures
        pushdown_from(s, i, pending, extended) == s.subrange(i, s.len() as int),
    decreases s.len() - i,
{
    if i < s.len() {
        lemma_pushdown_from_identity(s, i + 1, pending, extended);
    }
    assert(pushdown_from(s, i, pending, extended) =~= s.subrange(i, s.len() as int));
}

/// Non-Hangul identity: on a sequence containing no Korean syllables the
/// push-down transform is the identity, under either rule set.
pub proof fn lemma_pushdown_non_hangul_identity(s: Seq<char>, extended: bool)
    requires
        forall|j: int| 0 <= j < s.len() ==> !is_korean_syllable(s[j]),
    ensures
        pushdown_spec(s, extended) == s,
{
    lemma_pushdown_from_identity(s, 0, Option::None, extended);
    assert(s.subrange(0, s.len() as int) =~= s);
}

/// Whether the push-down scan from position `i` on, entered with the given
/// pending initial consonant, never meets the trigger condition of an
/// extended-only rule, nor a pair on which only the palatalization guard
/// separates the two modes: at every consulted syllable pair the ordinary
/// and the extended action agree.
pub open spec fn pushdown_ordinary_only(s: Seq<char>, i: int, pending: Option<Choseong>) -> bool
    decreases s.len() - i,
{
    if i >= s.len() {
        true
    } else if !is_korean_syllable(s[i]) {
        pushdown_ordinary_only(s, i + 1, pending)
    } else {
        let cur = pushdown_current(decompose(s[i]), pending);
        if i + 1 < s.len() && is_korean_syllable(s[i + 1]) {
            let next = decompose(s[i + 1]);
            pushdown_action(cur, next, true) == pushdown_action(cur, next, false) && (
            match pushdown_action(cur, next, false) {
                Option::Some(act) => pushdown_ordinary_only(s, i + 1, Option::Some(act.1)),
                Option::None => pushdown_ordinary_only(s, i + 1, Option::None),
            })
        } else {
            pushdown_ordinary_only(s, i + 1, Option::None)
        }
    }
}

proof fn lemma_pushdown_from_extended_agrees(s: Seq<char>, i: int, pending: Option<Choseong>)
    requires
        0 <= i <= s.len(),
        pushdown_ordinary_only(s, i, pending),
    ensures
        pushdown_from(s, i, pending, true) == pushdown_from(s, i, pending, false),
    decreases s.len() - i,
{
    if i < s.len() {
        if !is_korean_syllable(s[i]) {
            lemma_pushdown_from_extended_agrees(s, i + 1, pending);
        } else {
            let cur = pushdown_current(decompose(s[i]), pending);
            if i + 1 < s.len() && is_korean_syllable(s[i + 1]) {
                let next = decompose(s[i + 1]);
                match pushdown_action(cur, next, false) {
                    Option::Some(act) => lemma_pushdown_from_extended_agrees(
                        s,
                        i + 1,
                        Option::Some(act.1),
                    ),
                    Option::None => lemma_pushdown_from_extended_agrees(s, i + 1, Option::None),
                }
            } else {
                lemma_pushdown_from_extended_agrees(s, i + 1, Option::None);
            }
        }
    }
}

/// Monotone rule-set inclusion over a whole scan: on an input whose scan
/// never meets an extended-only rule's trigger condition (the
/// palatalization guard included), the extended-mode output equals the
/// ordinary-mode output — the extended rule set can only change the output
/// where an extended rule fires or the guard is lifted.
pub proof fn lemma_pushdown_extended_agrees(s: Seq<char>)
    requires
        pushdown_ordinary_only(s, 0, Option::None),
    ensures
        pushdown_spec(s, true) == pushdown_spec(s, false),
{
    lemma_pushdown_from_extended_agrees(s, 0, Option::None);
}

} // verus!
