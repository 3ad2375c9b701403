//! The three closed consonant/vowel symbol sets of a precomposed Korean
//! syllable: the 19 initial consonants (choseong), the 21 medial vowels
//! (jungseong) and the 27 final consonants (jongseong).  Each set carries the
//! dictionary/Unicode order through `ordinal`, the position of a symbol in
//! the syllable block layout.

use vstd::prelude::*;

verus! {

/// The consonants applicable to the initial-consonant (choseong) position of
/// a Korean syllable, in Unicode layout order.
#[derive(Clone, Copy, Debug, PartialEq, Eq, Structural)]
pub enum Choseong {
    /// g
    Kiyeok,
    /// kk
    SsangKiyeok,
    /// n
    Nieun,
    /// d
    Tikeut,
    /// tt
    SsangTikeut,
    /// r
    Rieul,
    /// m
    Mieum,
    /// b
    Pieup,
    /// pp
    SsangPieup,
    /// s
    Sios,
    /// ss
    SsangSios,
    /// the zero initial
    Ieung,
    /// j
    Cieuc,
    /// jj
    SsangCieuc,
    /// ch
    Chieuch,
    /// k
    Khieukh,
    /// t
    Thieuth,
    /// p
    Phieuph,
    /// h
    Hieuh,
}

/// The vowels applicable to the medial-vowel (jungseong) position of a Korean
/// syllable, in Unicode layout order.
#[derive(Clone, Copy, Debug, PartialEq, Eq, Structural)]
pub enum Jungseong {
    /// a
    A,
    /// ae
    Ae,
    /// ya
    Ya,
    /// yae
    Yae,
    /// eo
    Eo,
    /// e
    E,
    /// yeo
    Yeo,
    /// ye
    Ye,
    /// o
    O,
    /// wa
    Wa,
    /// wae
    Wae,
    /// oe
    Oe,
    /// yo
    Yo,
    /// u
    U,
    /// weo
    Weo,
    /// we
    We,
    /// wi
    Wi,
    /// yu
    Yu,
    /// eu
    Eu,
    /// ui
    Yi,
    /// i
    I,
}

/// The consonants (including clusters) applicable to the final-consonant
/// (jongseong) position of a Korean syllable, in Unicode layout order.
///
/// The absence of a final consonant is not a member of this set: a syllable
/// without one carries `None` in its final slot, so that an empty slot can
/// never match a real rewrite-rule condition by accident.
#[derive(Clone, Copy, Debug, PartialEq, Eq, Structural)]
pub enum Jongseong {
    /// g
    Kiyeok,
    /// kk
    SsangKiyeok,
    /// gs
    KiyeokSios,
    /// n
    Nieun,
    /// nj
    NieunCieuc,
    /// nh
    NieunHieuh,
    /// d
    Tikeut,
    /// l
    Rieul,
    /// lg
    RieulKiyeok,
    /// lm
    RieulMieum,
    /// lb
    RieulPieup,
    /// ls
    RieulSios,
    /// lt
    RieulThieuth,
    /// lp
    RieulPhieuph,
    /// lh
    RieulHieuh,
    /// m
    Mieum,
    /// b
    Pieup,
    /// bs
    PieupSios,
    /// s
    Sios,
    /// ss
    SsangSios,
    /// ng
    Ieung,
    /// j
    Cieuc,
    /// ch
    Chieuch,
    /// k
    Khieukh,
    /// t
    Thieuth,
    /// p
    Phieuph,
    /// h
    Hieuh,
}

impl Choseong {
    /// The position of this initial consonant in the syllable block layout.
    pub open spec fn ordinal(self) -> int {
        match self {
            Choseong::Kiyeok => 0,
            Choseong::SsangKiyeok => 1,
            Choseong::Nieun => 2,
            Choseong::Tikeut => 3,
            Choseong::SsangTikeut => 4,
            Choseong::Rieul => 5,
            Choseong::Mieum => 6,
            Choseong::Pieup => 7,
            Choseong::SsangPieup => 8,
            Choseong::Sios => 9,
            Choseong::SsangSios => 10,
            Choseong::Ieung => 11,
            Choseong::Cieuc => 12,
            Choseong::SsangCieuc => 13,
            Choseong::Chieuch => 14,
            Choseong::Khieukh => 15,
            Choseong::Thieuth => 16,
            Choseong::Phieuph => 17,
            Choseong::Hieuh => 18,
        }
    }

    /// The initial consonant at a given position of the block layout.
    pub open spec fn of_ordinal(i: int) -> Choseong {
        if i == 0 {
            Choseong::Kiyeok
        } else if i == 1 {
            Choseong::SsangKiyeok
        } else if i == 2 {
            Choseong::Nieun
        } else if i == 3 {
            Choseong::Tikeut
        } else if i == 4 {
            Choseong::SsangTikeut
        } else if i == 5 {
            Choseong::Rieul
        } else if i == 6 {
            Choseong::Mieum
        } else if i == 7 {
            Choseong::Pieup
        } else if i == 8 {
            Choseong::SsangPieup
        } else if i == 9 {
            Choseong::Sios
        } else if i == 10 {
            Choseong::SsangSios
        } else if i == 11 {
            Choseong::Ieung
        } else if i == 12 {
            Choseong::Cieuc
        } else if i == 13 {
            Choseong::SsangCieuc
        } else if i == 14 {
            Choseong::Chieuch
        } else if i == 15 {
            Choseong::Khieukh
        } else if i == 16 {
            Choseong::Thieuth
        } else if i == 17 {
            Choseong::Phieuph
        } else {
            Choseong::Hieuh
        }
    }

    pub fn to_ordinal(self) -> (r: u8)
        ensures
            r as int == self.ordinal(),
    {
        match self {
            Choseong::Kiyeok => 0,
            Choseong::SsangKiyeok => 1,
            Choseong::Nieun => 2,
            Choseong::Tikeut => 3,
            Choseong::SsangTikeut => 4,
            Choseong::Rieul => 5,
            Choseong::Mieum => 6,
            Choseong::Pieup => 7,
            Choseong::SsangPieup => 8,
            Choseong::Sios => 9,
            Choseong::SsangSios => 10,
            Choseong::Ieung => 11,
            Choseong::Cieuc => 12,
            Choseong::SsangCieuc => 13,
            Choseong::Chieuch => 14,
            Choseong::Khieukh => 15,
            Choseong::Thieuth => 16,
            Choseong::Phieuph => 17,
            Choseong::Hieuh => 18,
        }
    }

    pub fn from_ordinal(i: u8) -> (r: Choseong)
        requires
            i < 19,
        ensures
            r == Choseong::of_ordinal(i as int),
    {
        if i == 0 {
            Choseong::Kiyeok
        } else if i == 1 {
            Choseong::SsangKiyeok
        } else if i == 2 {
            Choseong::Nieun
        } else if i == 3 {
            Choseong::Tikeut
        } else if i == 4 {
            Choseong::SsangTikeut
        } else if i == 5 {
            Choseong::Rieul
        } else if i == 6 {
            Choseong::Mieum
        } else if i == 7 {
            Choseong::Pieup
        } else if i == 8 {
            Choseong::SsangPieup
        } else if i == 9 {
            Choseong::Sios
        } else if i == 10 {
            Choseong::SsangSios
        } else if i == 11 {
            Choseong::Ieung
        } else if i == 12 {
            Choseong::Cieuc
        } else if i == 13 {
            Choseong::SsangCieuc
        } else if i == 14 {
            Choseong::Chieuch
        } else if i == 15 {
            Choseong::Khieukh
        } else if i == 16 {
            Choseong::Thieuth
        } else if i == 17 {
            Choseong::Phieuph
        } else {
            Choseong::Hieuh
        }
    }
}

impl Jungseong {
    /// The position of this medial vowel in the syllable block layout.
    pub open spec fn ordinal(self) -> int {
        match self {
            Jungseong::A => 0,
            Jungseong::Ae => 1,
            Jungseong::Ya => 2,
            Jungseong::Yae => 3,
            Jungseong::Eo => 4,
            Jungseong::E => 5,
            Jungseong::Yeo => 6,
            Jungseong::Ye => 7,
            Jungseong::O => 8,
            Jungseong::Wa => 9,
            Jungseong::Wae => 10,
            Jungseong::Oe => 11,
            Jungseong::Yo => 12,
            Jungseong::U => 13,
            Jungseong::Weo => 14,
            Jungseong::We => 15,
            Jungseong::Wi => 16,
            Jungseong::Yu => 17,
            Jungseong::Eu => 18,
            Jungseong::Yi => 19,
            Jungseong::I => 20,
        }
    }

    /// The medial vowel at a given position of the block layout.
    pub open spec fn of_ordinal(i: int) -> Jungseong {
        if i == 0 {
            Jungseong::A
        } else if i == 1 {
            Jungseong::Ae
        } else if i == 2 {
            Jungseong::Ya
        } else if i == 3 {
            Jungseong::Yae
        } else if i == 4 {
            Jungseong::Eo
        } else if i == 5 {
            Jungseong::E
        } else if i == 6 {
            Jungseong::Yeo
        } else if i == 7 {
            Jungseong::Ye
        } else if i == 8 {
            Jungseong::O
        } else if i == 9 {
            Jungseong::Wa
        } else if i == 10 {
            Jungseong::Wae
        } else if i == 11 {
            Jungseong::Oe
        } else if i == 12 {
            Jungseong::Yo
        } else if i == 13 {
            Jungseong::U
        } else if i == 14 {
            Jungseong::Weo
        } else if i == 15 {
            Jungseong::We
        } else if i == 16 {
            Jungseong::Wi
        } else if i == 17 {
            Jungseong::Yu
        } else if i == 18 {
            Jungseong::Eu
        } else if i == 19 {
            Jungseong::Yi
        } else {
            Jungseong::I
        }
    }

    pub fn to_ordinal(self) -> (r: u8)
        ensures
            r as int == self.ordinal(),
    {
        match self {
            Jungseong::A => 0,
            Jungseong::Ae => 1,
            Jungseong::Ya => 2,
            Jungseong::Yae => 3,
            Jungseong::Eo => 4,
            Jungseong::E => 5,
            Jungseong::Yeo => 6,
            Jungseong::Ye => 7,
            Jungseong::O => 8,
            Jungseong::Wa => 9,
            Jungseong::Wae => 10,
            Jungseong::Oe => 11,
            Jungseong::Yo => 12,
            Jungseong::U => 13,
            Jungseong::Weo => 14,
            Jungseong::We => 15,
            Jungseong::Wi => 16,
            Jungseong::Yu => 17,
            Jungseong::Eu => 18,
            Jungseong::Yi => 19,
            Jungseong::I => 20,
        }
    }

    pub fn from_ordinal(i: u8) -> (r: Jungseong)
        requires
            i < 21,
        ensures
            r == Jungseong::of_ordinal(i as int),
    {
        if i == 0 {
            Jungseong::A
        } else if i == 1 {
            Jungseong::Ae
        } else if i == 2 {
            Jungseong::Ya
        } else if i == 3 {
            Jungseong::Yae
        } else if i == 4 {
            Jungseong::Eo
        } else if i == 5 {
            Jungseong::E
        } else if i == 6 {
            Jungseong::Yeo
        } else if i == 7 {
            Jungseong::Ye
        } else if i == 8 {
            Jungseong::O
        } else if i == 9 {
            Jungseong::Wa
        } else if i == 10 {
            Jungseong::Wae
        } else if i == 11 {
            Jungseong::Oe
        } else if i == 12 {
            Jungseong::Yo
        } else if i == 13 {
            Jungseong::U
        } else if i == 14 {
            Jungseong::Weo
        } else if i == 15 {
            Jungseong::We
        } else if i == 16 {
            Jungseong::Wi
        } else if i == 17 {
            Jungseong::Yu
        } else if i == 18 {
            Jungseong::Eu
        } else if i == 19 {
            Jungseong::Yi
        } else {
            Jungseong::I
        }
    }
}

impl Jongseong {
    /// The position of this final consonant among the 27 non-empty
    /// final-consonant slots; the syllable block layout places it at slot
    /// `ordinal + 1`, slot 0 being the empty slot.
    pub open spec fn ordinal(self) -> int {
        match self {
            Jongseong::Kiyeok => 0,
            Jongseong::SsangKiyeok => 1,
            Jongseong::KiyeokSios => 2,
            Jongseong::Nieun => 3,
            Jongseong::NieunCieuc => 4,
            Jongseong::NieunHieuh => 5,
            Jongseong::Tikeut => 6,
            Jongseong::Rieul => 7,
            Jongseong::RieulKiyeok => 8,
            Jongseong::RieulMieum => 9,
            Jongseong::RieulPieup => 10,
            Jongseong::RieulSios => 11,
            Jongseong::RieulThieuth => 12,
            Jongseong::RieulPhieuph => 13,
            Jongseong::RieulHieuh => 14,
            Jongseong::Mieum => 15,
            Jongseong::Pieup => 16,
            Jongseong::PieupSios => 17,
            Jongseong::Sios => 18,
            Jongseong::SsangSios => 19,
            Jongseong::Ieung => 20,
            Jongseong::Cieuc => 21,
            Jongseong::Chieuch => 22,
            Jongseong::Khieukh => 23,
            Jongseong::Thieuth => 24,
            Jongseong::Phieuph => 25,
            Jongseong::Hieuh => 26,
        }
    }

    /// The final consonant at a given position among the non-empty slots.
    pub open spec fn of_ordinal(i: int) -> Jongseong {
        if i == 0 {
            Jongseong::Kiyeok
        } else if i == 1 {
            Jongseong::SsangKiyeok
        } else if i == 2 {
            Jongseong::KiyeokSios
        } else if i == 3 {
            Jongseong::Nieun
        } else if i == 4 {
            Jongseong::NieunCieuc
        } else if i == 5 {
            Jongseong::NieunHieuh
        } else if i == 6 {
            Jongseong::Tikeut
        } else if i == 7 {
            Jongseong::Rieul
        } else if i == 8 {
            Jongseong::RieulKiyeok
        } else if i == 9 {
            Jongseong::RieulMieum
        } else if i == 10 {
            Jongseong::RieulPieup
        } else if i == 11 {
            Jongseong::RieulSios
        } else if i == 12 {
            Jongseong::RieulThieuth
        } else if i == 13 {
            Jongseong::RieulPhieuph
        } else if i == 14 {
            Jongseong::RieulHieuh
        } else if i == 15 {
            Jongseong::Mieum
        } else if i == 16 {
            Jongseong::Pieup
        } else if i == 17 {
            Jongseong::PieupSios
        } else if i == 18 {
            Jongseong::Sios
        } else if i == 19 {
            Jongseong::SsangSios
        } else if i == 20 {
            Jongseong::Ieung
        } else if i == 21 {
            Jongseong::Cieuc
        } else if i == 22 {
            Jongseong::Chieuch
        } else if i == 23 {
            Jongseong::Khieukh
        } else if i == 24 {
            Jongseong::Thieuth
        } else if i == 25 {
            Jongseong::Phieuph
        } else {
            Jongseong::Hieuh
        }
    }

    pub fn to_ordinal(self) -> (r: u8)
        ensures
            r as int == self.ordinal(),
    {
        match self {
            Jongseong::Kiyeok => 0,
            Jongseong::SsangKiyeok => 1,
            Jongseong::KiyeokSios => 2,
            Jongseong::Nieun => 3,
            Jongseong::NieunCieuc => 4,
            Jongseong::NieunHieuh => 5,
            Jongseong::Tikeut => 6,
            Jongseong::Rieul => 7,
            Jongseong::RieulKiyeok => 8,
            Jongseong::RieulMieum => 9,
            Jongseong::RieulPieup => 10,
            Jongseong::RieulSios => 11,
            Jongseong::RieulThieuth => 12,
            Jongseong::RieulPhieuph => 13,
            Jongseong::RieulHieuh => 14,
            Jongseong::Mieum => 15,
            Jongseong::Pieup => 16,
            Jongseong::PieupSios => 17,
            Jongseong::Sios => 18,
            Jongseong::SsangSios => 19,
            Jongseong::Ieung => 20,
            Jongseong::Cieuc => 21,
            Jongseong::Chieuch => 22,
            Jongseong::Khieukh => 23,
            Jongseong::Thieuth => 24,
            Jongseong::Phieuph => 25,
            Jongseong::Hieuh => 26,
        }
    }

    pub fn from_ordinal(i: u8) -> (r: Jongseong)
        requires
            i < 27,
        ensures
            r == Jongseong::of_ordinal(i as int),
    {
        if i == 0 {
            Jongseong::Kiyeok
        } else if i == 1 {
            Jongseong::SsangKiyeok
        } else if i == 2 {
            Jongseong::KiyeokSios
        } else if i == 3 {
            Jongseong::Nieun
        } else if i == 4 {
            Jongseong::NieunCieuc
        } else if i == 5 {
            Jongseong::NieunHieuh
        } else if i == 6 {
            Jongseong::Tikeut
        } else if i == 7 {
            Jongseong::Rieul
        } else if i == 8 {
            Jongseong::RieulKiyeok
        } else if i == 9 {
            Jongseong::RieulMieum
        } else if i == 10 {
            Jongseong::RieulPieup
        } else if i == 11 {
            Jongseong::RieulSios
        } else if i == 12 {
            Jongseong::RieulThieuth
        } else if i == 13 {
            Jongseong::RieulPhieuph
        } else if i == 14 {
            Jongseong::RieulHieuh
        } else if i == 15 {
            Jongseong::Mieum
        } else if i == 16 {
            Jongseong::Pieup
        } else if i == 17 {
            Jongseong::PieupSios
        } else if i == 18 {
            Jongseong::Sios
        } else if i == 19 {
            Jongseong::SsangSios
        } else if i == 20 {
            Jongseong::Ieung
        } else if i == 21 {
            Jongseong::Cieuc
        } else if i == 22 {
            Jongseong::Chieuch
        } else if i == 23 {
            Jongseong::Khieukh
        } else if i == 24 {
            Jongseong::Thieuth
        } else if i == 25 {
            Jongseong::Phieuph
        } else {
            Jongseong::Hieuh
        }
    }
}

} // verus!
