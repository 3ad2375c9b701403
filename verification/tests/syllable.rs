use hangul_liaison::Choseong;
use hangul_liaison::Error;
use hangul_liaison::Jongseong;
use hangul_liaison::Jungseong;
use hangul_liaison::Syllable;

#[test]
fn test_from_syllable_for_char() {
    assert_eq!(
        Syllable {
            choseong: Choseong::Ieung,
            jungseong: Jungseong::I,
            jongseong: Some(Jongseong::Rieul),
        }
        .to_char(),
        '일'
    );
    assert_eq!(
        Syllable {
            choseong: Choseong::Sios,
            jungseong: Jungseong::Eo,
            jongseong: Some(Jongseong::Nieun),
        }
        .to_char(),
        '선'
    );

    assert_eq!(
        Syllable {
            choseong: Choseong::Kiyeok,
            jungseong: Jungseong::Ae,
            jongseong: None,
        }
        .to_char(),
        '개'
    );
}

#[test]
fn test_tryfrom_char_for_syllable() {
    assert_eq!(Syllable::try_from('@'), Err(Error::NonKorean('@')));
    assert_eq!(Syllable::try_from('E'), Err(Error::NonKorean('E')));
    assert_eq!(Syllable::try_from('𝄞'), Err(Error::NonKorean('𝄞')));

    assert_eq!(
        Syllable::try_from('고'),
        Ok(Syllable {
            choseong: Choseong::Kiyeok,
            jungseong: Jungseong::O,
            jongseong: None,
        })
    );
    assert_eq!(
        Syllable::try_from('양'),
        Ok(Syllable {
            choseong: Choseong::Ieung,
            jungseong: Jungseong::Ya,
            jongseong: Some(Jongseong::Ieung),
        })
    );
    assert_eq!(
        Syllable::try_from('이'),
        Ok(Syllable {
            choseong: Choseong::Ieung,
            jungseong: Jungseong::I,
            jongseong: None,
        })
    );
}

#[test]
fn test_roundtrip_full_range() {
    // Every one of the 11172 precomposed Korean syllables decomposes and
    // recomposes to itself.
    for code in 0xAC00u32..=0xD7A3 {
        let c = char::from_u32(code).unwrap();
        let syllable = Syllable::try_from(c).unwrap();
        assert_eq!(syllable.to_char(), c);
    }
}

#[test]
fn test_range_boundaries() {
    assert!(!Syllable::is_one_of_us('\u{ABFF}'));
    assert!(Syllable::is_one_of_us('\u{AC00}'));
    assert!(Syllable::is_one_of_us('\u{D7A3}'));
    assert!(!Syllable::is_one_of_us('\u{D7A4}'));

    assert_eq!(
        Syllable::try_from('\u{ABFF}'),
        Err(Error::NonKorean('\u{ABFF}'))
    );
    assert_eq!(
        Syllable::try_from('\u{D7A4}'),
        Err(Error::NonKorean('\u{D7A4}'))
    );
    assert!(Syllable::try_from('\u{AC00}').is_ok());
    assert!(Syllable::try_from('\u{D7A3}').is_ok());
}

#[test]
fn test_error_message() {
    let error = Syllable::try_from('@').unwrap_err();
    assert_eq!(error.message(), "not a precomposed Korean syllable".to_owned());
}
