//! The horizontal flip wordplay transform: the sequence of (initial, final)
//! consonant pairs of the Korean syllables of a string is reversed
//! end-to-end, while every syllable keeps its own medial vowel and every
//! character keeps its position.  Characters that are not Korean syllables
//! pass through unchanged and do not take part in the reversal.  This is a
//! reversal-and-zip utility with no phonology in it.

use vstd::prelude::*;
use vstd::string::StrSliceExecFns;

use crate::chars::push_char;
use crate::syllable::compose;
use crate::syllable::decompose;
use crate::syllable::is_korean_syllable;
use crate::syllable::Syllable;

verus! {

/// The decompositions of the Korean syllables of `s` from position `i` on,
/// in order of appearance.
pub open spec fn syllables_from(s: Seq<char>, i: int) -> Seq<Syllable>
    decreases s.len() - i,
{
    if i >= s.len() {
        Seq::empty()
    } else if is_korean_syllable(s[i]) {
        seq![decompose(s[i])] + syllables_from(s, i + 1)
    } else {
        syllables_from(s, i + 1)
    }
}

/// The output of the flip from position `i` on, `p` being the number of
/// Korean syllables already passed: the syllable at occurrence `p` takes
/// its initial and final consonant from the occurrence `p` positions from
/// the end, and keeps its own medial vowel.
pub open spec fn flip_from(s: Seq<char>, i: int, p: int) -> Seq<char>
    decreases s.len() - i,
{
    if i >= s.len() {
        Seq::empty()
    } else if !is_korean_syllable(s[i]) {
        seq![s[i]] + flip_from(s, i + 1, p)
    } else {
        let all = syllables_from(s, 0);
        let donor = all[all.len() - 1 - p];
        seq![
            compose(
                Syllable {
                    choseong: donor.choseong,
                    jungseong: decompose(s[i]).jungseong,
                    jongseong: donor.jongseong,
                },
            ),
        ] + flip_from(s, i + 1, p + 1)
    }
}

/// What the flip transform returns on a character sequence.
pub open spec fn flip_spec(s: Seq<char>) -> Seq<char> {
    flip_from(s, 0, 0)
}

/// Flips the initial/final consonant pairs of the Korean syllables of the
/// string end-to-end, keeping each syllable's medial vowel and every
/// character's position.
pub fn flip_chojongseong_horizontally(source: &str) -> (r: String)
    ensures
        r@ == flip_spec(source@),
{
    let ghost s = source@;
    let n = source.unicode_len();
    let mut syllables: Vec<Syllable> = Vec::new();
    let mut i: usize = 0;
    while i < n
        invariant
            s == source@,
            n == s.len(),
            i <= n,
            syllables@ + syllables_from(s, i as int) == syllables_from(s, 0),
        decreases n - i,
    {
        let ghost collected0 = syllables@;
        let c = source.get_char(i);
        if Syllable::is_one_of_us(c) {
            let syl = Syllable::try_from(c).unwrap();
            syllables.push(syl);
        }
        proof {
            assert(syllables@ + syllables_from(s, i + 1) =~= collected0 + syllables_from(
                s,
                i as int,
            ));
        }
        i = i + 1;
    }
    proof {
        assert(syllables@ + syllables_from(s, n as int) =~= syllables@);
    }
    let k = syllables.len();
    let mut destination = String::new();
    let mut p: usize = 0;
    let mut j: usize = 0;
    while j < n
        invariant
            s == source@,
            n == s.len(),
            j <= n,
            syllables@ == syllables_from(s, 0),
            k == syllables@.len(),
            p + syllables_from(s, j as int).len() == k,
            flip_spec(s) == destination@ + flip_from(s, j as int, p as int),
        decreases n - j,
    {
        let ghost destination0 = destination@;
        let ghost p0 = p;
        let c = source.get_char(j);
        if Syllable::is_one_of_us(c) {
            let cur = Syllable::try_from(c).unwrap();
            let donor = syllables[k - 1 - p];
            let flipped = Syllable {
                choseong: donor.choseong,
                jungseong: cur.jungseong,
                jongseong: donor.jongseong,
            };
            push_char(&mut destination, flipped.to_char());
            p = p + 1;
        } else {
            push_char(&mut destination, c);
        }
        proof {
            assert(destination@ + flip_from(s, j + 1, p as int) =~= destination0 + flip_from(
                s,
                j as int,
                p0 as int,
            ));
        }
        j = j + 1;
    }
    proof {
        assert(destination@ + flip_from(s, n as int, p as int) =~= destination@);
    }
    destination
}

proof fn lemma_flip_from_len(s: Seq<char>, i: int, p: int)
    requires
        0 <= i <= s.len(),
    ensures
        flip_from(s, i, p).len() == s.len() - i,
    decreases s.len() - i,
{
    if i < s.len() {
        if !is_korean_syllable(s[i]) {
            lemma_flip_from_len(s, i + 1, p);
        } else {
            lemma_flip_from_len(s, i + 1, p + 1);
        }
    }
}

/// Length preservation: the flip transform emits exactly one character for
/// each character of its input.
pub proof fn lemma_flip_preserves_count(s: Seq<char>)
    ensures
        flip_spec(s).len() == s.len(),
{
    lemma_flip_from_len(s, 0, 0);
}

proof fn lemma_flip_from_identity(s: Seq<char>, i: int, p: int)
    requires
        0 <= i <= s.len(),
        forall|j: int| i <= j < s.len() ==> !is_korean_syllable(s[j]),
    ensures
        flip_from(s, i, p) == s.subrange(i, s.len() as int),
    decreases s.len() - i,
{
    if i < s.len() {
        lemma_flip_from_identity(s, i + 1, p);
    }
    assert(flip_from(s, i, p) =~= s.subrange(i, s.len() as int));
}

/// Non-Hangul identity: on a sequence containing no Korean syllables the
/// flip transform is the identity.
pub proof fn lemma_flip_non_hangul_identity(s: Seq<char>)
    requires
        forall|j: int| 0 <= j < s.len() ==> !is_korean_syllable(s[j]),
    ensures
        flip_spec(s) == s,
{
    lemma_flip_from_identity(s, 0, 0);
    assert(s.subrange(0, s.len() as int) =~= s);
}

} // verus!
