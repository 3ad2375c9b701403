//! The ordered rewrite-rule tables of the two liaison transforms.
//!
//! Each table is a closed, hand-curated set of rules keyed by a
//! consonant-match condition.  Rules are consulted in a fixed priority order
//! and the first match wins; the match conditions below are pairwise
//! distinct, so the match expressions state exactly the first-match-wins
//! outcome of scanning the tables in order.  A rule tagged extended is
//! colloquial rather than phonetic, and is eligible only when the caller
//! opts in to the extended rule set.

use vstd::prelude::*;

use crate::jamo::Choseong;
use crate::jamo::Jongseong;
use crate::jamo::Jungseong;
use crate::syllable::Syllable;

verus! {

/// The pull-up table: when the current syllable has the given final
/// consonant (or none) and the next syllable starts with the given initial
/// consonant, the current syllable's final consonant becomes the result and
/// the next syllable's initial consonant becomes the zero initial.
pub open spec fn pullup_rule(
    current_final: Option<Jongseong>,
    next_initial: Choseong,
    extended: bool,
) -> Option<Jongseong> {
    match (current_final, next_initial) {
        (Option::None, Choseong::Kiyeok) => Option::Some(Jongseong::Kiyeok),
        (Option::None, Choseong::SsangKiyeok) => Option::Some(Jongseong::SsangKiyeok),
        (Option::None, Choseong::Nieun) => Option::Some(Jongseong::Nieun),
        (Option::None, Choseong::Tikeut) => Option::Some(Jongseong::Tikeut),
        (Option::None, Choseong::Rieul) => Option::Some(Jongseong::Rieul),
        (Option::None, Choseong::Mieum) => Option::Some(Jongseong::Mieum),
        (Option::None, Choseong::Pieup) => Option::Some(Jongseong::Pieup),
        (Option::None, Choseong::Sios) => Option::Some(Jongseong::Sios),
        (Option::None, Choseong::SsangSios) => Option::Some(Jongseong::SsangSios),
        (Option::None, Choseong::Cieuc) => Option::Some(Jongseong::Cieuc),
        (Option::None, Choseong::Chieuch) => Option::Some(Jongseong::Chieuch),
        (Option::None, Choseong::Khieukh) => Option::Some(Jongseong::Khieukh),
        (Option::None, Choseong::Thieuth) => Option::Some(Jongseong::Thieuth),
        (Option::None, Choseong::Phieuph) => Option::Some(Jongseong::Phieuph),
        (Option::None, Choseong::Hieuh) => if extended {
            Option::Some(Jongseong::Hieuh)
        } else {
            Option::None
        },
        (Option::Some(Jongseong::Kiyeok), Choseong::Kiyeok) => if extended {
            Option::Some(Jongseong::SsangKiyeok)
        } else {
            Option::None
        },
        (Option::Some(Jongseong::Kiyeok), Choseong::Sios) => Option::Some(Jongseong::KiyeokSios),
        (Option::Some(Jongseong::Nieun), Choseong::Cieuc) => Option::Some(Jongseong::NieunCieuc),
        (Option::Some(Jongseong::Nieun), Choseong::Hieuh) => if extended {
            Option::Some(Jongseong::NieunHieuh)
        } else {
            Option::None
        },
        (Option::Some(Jongseong::Rieul), Choseong::Kiyeok) => Option::Some(Jongseong::RieulKiyeok),
        (Option::Some(Jongseong::Rieul), Choseong::Mieum) => Option::Some(Jongseong::RieulMieum),
        (Option::Some(Jongseong::Rieul), Choseong::Pieup) => Option::Some(Jongseong::RieulPieup),
        (Option::Some(Jongseong::Rieul), Choseong::Sios) => Option::Some(Jongseong::RieulSios),
        (Option::Some(Jongseong::Rieul), Choseong::Thieuth) => Option::Some(
            Jongseong::RieulThieuth,
        ),
        (Option::Some(Jongseong::Rieul), Choseong::Phieuph) => Option::Some(
            Jongseong::RieulPhieuph,
        ),
        (Option::Some(Jongseong::Rieul), Choseong::Hieuh) => if extended {
            Option::Some(Jongseong::RieulHieuh)
        } else {
            Option::None
        },
        (Option::Some(Jongseong::Pieup), Choseong::Sios) => Option::Some(Jongseong::PieupSios),
        (Option::Some(Jongseong::Sios), Choseong::Sios) => if extended {
            Option::Some(Jongseong::SsangSios)
        } else {
            Option::None
        },
        _ => Option::None,
    }
}

/// The pull-up table as executable code, in the same priority order.
pub fn pullup_lookup(current_final: Option<Jongseong>, next_initial: Choseong, extended: bool) -> (
    r: Option<Jongseong>)
    ensures
        r == pullup_rule(current_final, next_initial, extended),
{
    match (current_final, next_initial) {
        (None, Choseong::Kiyeok) => Some(Jongseong::Kiyeok),
        (None, Choseong::SsangKiyeok) => Some(Jongseong::SsangKiyeok),
        (None, Choseong::Nieun) => Some(Jongseong::Nieun),
        (None, Choseong::Tikeut) => Some(Jongseong::Tikeut),
        (None, Choseong::Rieul) => Some(Jongseong::Rieul),
        (None, Choseong::Mieum) => Some(Jongseong::Mieum),
        (None, Choseong::Pieup) => Some(Jongseong::Pieup),
        (None, Choseong::Sios) => Some(Jongseong::Sios),
        (None, Choseong::SsangSios) => Some(Jongseong::SsangSios),
        (None, Choseong::Cieuc) => Some(Jongseong::Cieuc),
        (None, Choseong::Chieuch) => Some(Jongseong::Chieuch),
        (None, Choseong::Khieukh) => Some(Jongseong::Khieukh),
        (None, Choseong::Thieuth) => Some(Jongseong::Thieuth),
        (None, Choseong::Phieuph) => Some(Jongseong::Phieuph),
        (None, Choseong::Hieuh) => if extended {
            Some(Jongseong::Hieuh)
        } else {
            None
        },
        (Some(Jongseong::Kiyeok), Choseong::Kiyeok) => if extended {
            Some(Jongseong::SsangKiyeok)
        } else {
            None
        },
        (Some(Jongseong::Kiyeok), Choseong::Sios) => Some(Jongseong::KiyeokSios),
        (Some(Jongseong::Nieun), Choseong::Cieuc) => Some(Jongseong::NieunCieuc),
        (Some(Jongseong::Nieun), Choseong::Hieuh) => if extended {
            Some(Jongseong::NieunHieuh)
        } else {
            None
        },
        (Some(Jongseong::Rieul), Choseong::Kiyeok) => Some(Jongseong::RieulKiyeok),
        (Some(Jongseong::Rieul), Choseong::Mieum) => Some(Jongseong::RieulMieum),
        (Some(Jongseong::Rieul), Choseong::Pieup) => Some(Jongseong::RieulPieup),
        (Some(Jongseong::Rieul), Choseong::Sios) => Some(Jongseong::RieulSios),
        (Some(Jongseong::Rieul), Choseong::Thieuth) => Some(Jongseong::RieulThieuth),
        (Some(Jongseong::Rieul), Choseong::Phieuph) => Some(Jongseong::RieulPhieuph),
        (Some(Jongseong::Rieul), Choseong::Hieuh) => if extended {
            Some(Jongseong::RieulHieuh)
        } else {
            None
        },
        (Some(Jongseong::Pieup), Choseong::Sios) => Some(Jongseong::PieupSios),
        (Some(Jongseong::Sios), Choseong::Sios) => if extended {
            Some(Jongseong::SsangSios)
        } else {
            None
        },
        _ => None,
    }
}

/// The push-down table: when the current syllable has the given final
/// consonant and the next syllable starts with the zero initial, the current
/// syllable's final consonant becomes the first component (possibly none)
/// and the next syllable's initial consonant becomes the second.
pub open spec fn pushdown_rule(current_final: Jongseong, extended: bool) -> Option<
    (Option<Jongseong>, Choseong),
> {
    match current_final {
        Jongseong::Kiyeok => Option::Some((Option::None, Choseong::Kiyeok)),
        Jongseong::SsangKiyeok => Option::Some((Option::None, Choseong::SsangKiyeok)),
        Jongseong::KiyeokSios => Option::Some(
            (Option::Some(Jongseong::Kiyeok), Choseong::Sios),
        ),
        Jongseong::Nieun => Option::Some((Option::None, Choseong::Nieun)),
        Jongseong::NieunCieuc => Option::Some(
            (Option::Some(Jongseong::Nieun), Choseong::Cieuc),
        ),
        Jongseong::NieunHieuh => if extended {
            Option::Some((Option::Some(Jongseong::Nieun), Choseong::Hieuh))
        } else {
            Option::None
        },
        Jongseong::Tikeut => Option::Some((Option::None, Choseong::Tikeut)),
        Jongseong::Rieul => Option::Some((Option::None, Choseong::Rieul)),
        Jongseong::RieulKiyeok => Option::Some(
            (Option::Some(Jongseong::Rieul), Choseong::Kiyeok),
        ),
        Jongseong::RieulMieum => Option::Some(
            (Option::Some(Jongseong::Rieul), Choseong::Mieum),
        ),
        Jongseong::RieulPieup => Option::Some(
            (Option::Some(Jongseong::Rieul), Choseong::Pieup),
        ),
        Jongseong::RieulSios => Option::Some(
            (Option::Some(Jongseong::Rieul), Choseong::Sios),
        ),
        Jongseong::RieulThieuth => Option::Some(
            (Option::Some(Jongseong::Rieul), Choseong::Thieuth),
        ),
        Jongseong::RieulPhieuph => Option::Some(
            (Option::Some(Jongseong::Rieul), Choseong::Phieuph),
        ),
        Jongseong::RieulHieuh => if extended {
            Option::Some((Option::Some(Jongseong::Rieul), Choseong::Hieuh))
        } else {
            Option::None
        },
        Jongseong::Mieum => Option::Some((Option::None, Choseong::Mieum)),
        Jongseong::Pieup => Option::Some((Option::None, Choseong::Pieup)),
        Jongseong::PieupSios => Option::Some(
            (Option::Some(Jongseong::Pieup), Choseong::Sios),
        ),
        Jongseong::Sios => Option::Some((Option::None, Choseong::Sios)),
        Jongseong::SsangSios => Option::Some((Option::None, Choseong::SsangSios)),
        Jongseong::Ieung => Option::None,
        Jongseong::Cieuc => Option::Some((Option::None, Choseong::Cieuc)),
        Jongseong::Chieuch => Option::Some((Option::None, Choseong::Chieuch)),
        Jongseong::Khieukh => Option::Some((Option::None, Choseong::Khieukh)),
        Jongseong::Thieuth => Option::Some((Option::None, Choseong::Thieuth)),
        Jongseong::Phieuph => Option::Some((Option::None, Choseong::Phieuph)),
        Jongseong::Hieuh => if extended {
            Option::Some((Option::None, Choseong::Hieuh))
        } else {
            Option::None
        },
    }
}

/// The push-down table as executable code, in the same priority order.
pub fn pushdown_lookup(current_final: Jongseong, extended: bool) -> (r: Option<
    (Option<Jongseong>, Choseong),
>)
    ensures
        r == pushdown_rule(current_final, extended),
{
    match current_final {
        Jongseong::Kiyeok => Some((None, Choseong::Kiyeok)),
        Jongseong::SsangKiyeok => Some((None, Choseong::SsangKiyeok)),
        Jongseong::KiyeokSios => Some((Some(Jongseong::Kiyeok), Choseong::Sios)),
        Jongseong::Nieun => Some((None, Choseong::Nieun)),
        Jongseong::NieunCieuc => Some((Some(Jongseong::Nieun), Choseong::Cieuc)),
        Jongseong::NieunHieuh => if extended {
            Some((Some(Jongseong::Nieun), Choseong::Hieuh))
        } else {
            None
        },
        Jongseong::Tikeut => Some((None, Choseong::Tikeut)),
        Jongseong::Rieul => Some((None, Choseong::Rieul)),
        Jongseong::RieulKiyeok => Some((Some(Jongseong::Rieul), Choseong::Kiyeok)),
        Jongseong::RieulMieum => Some((Some(Jongseong::Rieul), Choseong::Mieum)),
        Jongseong::RieulPieup => Some((Some(Jongseong::Rieul), Choseong::Pieup)),
        Jongseong::RieulSios => Some((Some(Jongseong::Rieul), Choseong::Sios)),
        Jongseong::RieulThieuth => Some((Some(Jongseong::Rieul), Choseong::Thieuth)),
        Jongseong::RieulPhieuph => Some((Some(Jongseong::Rieul), Choseong::Phieuph)),
        Jongseong::RieulHieuh => if extended {
            Some((Some(Jongseong::Rieul), Choseong::Hieuh))
        } else {
            None
        },
        Jongseong::Mieum => Some((None, Choseong::Mieum)),
        Jongseong::Pieup => Some((None, Choseong::Pieup)),
        Jongseong::PieupSios => Some((Some(Jongseong::Pieup), Choseong::Sios)),
        Jongseong::Sios => Some((None, Choseong::Sios)),
        Jongseong::SsangSios => Some((None, Choseong::SsangSios)),
        Jongseong::Ieung => None,
        Jongseong::Cieuc => Some((None, Choseong::Cieuc)),
        Jongseong::Chieuch => Some((None, Choseong::Chieuch)),
        Jongseong::Khieukh => Some((None, Choseong::Khieukh)),
        Jongseong::Thieuth => Some((None, Choseong::Thieuth)),
        Jongseong::Phieuph => Some((None, Choseong::Phieuph)),
        Jongseong::Hieuh => if extended {
            Some((None, Choseong::Hieuh))
        } else {
            None
        },
    }
}

/// Whether a medial vowel is one of the iotated/high-front vowels before
/// which a final d or t undergoes palatalization rather than simple liaison.
pub open spec fn iotated(v: Jungseong) -> bool {
    match v {
        Jungseong::Ya => true,
        Jungseong::Yae => true,
        Jungseong::Yeo => true,
        Jungseong::Ye => true,
        Jungseong::Yo => true,
        Jungseong::Yu => true,
        Jungseong::I => true,
        _ => false,
    }
}

/// The palatalization guard of the push-down transform: a final d or t
/// before an iotated vowel is not pushed down in the ordinary rule set.
pub open spec fn palatal_guard(current_final: Option<Jongseong>, next_medial: Jungseong) -> bool {
    (current_final == Option::Some(Jongseong::Tikeut) || current_final == Option::Some(
        Jongseong::Thieuth,
    )) && iotated(next_medial)
}

/// The iotated-vowel test as executable code.
pub fn is_iotated(v: Jungseong) -> (r: bool)
    ensures
        r == iotated(v),
{
    match v {
        Jungseong::Ya => true,
        Jungseong::Yae => true,
        Jungseong::Yeo => true,
        Jungseong::Ye => true,
        Jungseong::Yo => true,
        Jungseong::Yu => true,
        Jungseong::I => true,
        _ => false,
    }
}

/// The palatalization guard as executable code.
pub fn is_palatal_guarded(current_final: Option<Jongseong>, next_medial: Jungseong) -> (r: bool)
    ensures
        r == palatal_guard(current_final, next_medial),
{
    let d_or_t = match current_final {
        Some(Jongseong::Tikeut) => true,
        Some(Jongseong::Thieuth) => true,
        _ => false,
    };
    d_or_t && is_iotated(next_medial)
}

/// What the push-down transform does at a syllable pair: nothing unless the
/// next syllable starts with the zero initial; nothing when the
/// palatalization guard blocks the pair in the ordinary rule set; otherwise
/// whatever the table says of the current final consonant.
pub open spec fn pushdown_action(cur: Syllable, next: Syllable, extended: bool) -> Option<
    (Option<Jongseong>, Choseong),
> {
    if next.choseong != Choseong::Ieung {
        Option::None
    } else if palatal_guard(cur.jongseong, next.jungseong) && !extended {
        Option::None
    } else {
        match cur.jongseong {
            Option::Some(f) => pushdown_rule(f, extended),
            Option::None => Option::None,
        }
    }
}

/// Monotone rule-set inclusion at the table level: every pull-up rule that
/// fires in the ordinary rule set fires with the same result in the
/// extended rule set.
pub proof fn lemma_pullup_rule_monotone(current_final: Option<Jongseong>, next_initial: Choseong)
    ensures
        pullup_rule(current_final, next_initial, false) is Some ==> pullup_rule(
            current_final,
            next_initial,
            true,
        ) == pullup_rule(current_final, next_initial, false),
{
}

/// Monotone rule-set inclusion at the table level: every push-down action
/// taken under the ordinary rule set is taken unchanged under the extended
/// rule set.
pub proof fn lemma_pushdown_action_monotone(cur: Syllable, next: Syllable)
    ensures
        pushdown_action(cur, next, false) is Some ==> pushdown_action(cur, next, true)
            == pushdown_action(cur, next, false),
{
}

} // verus!
