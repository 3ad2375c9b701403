use hangul_liaison::flip_chojongseong_horizontally;

#[test]
fn test_flip_chojongseong_horizontally() {
    assert_eq!(
        flip_chojongseong_horizontally("사람이 사람답게 살아야"),
        "아아실 가답람세 아람샤".to_owned()
    );
    assert_eq!(
        flip_chojongseong_horizontally("아무말 대잔치"),
        "차준다 맬마이".to_owned()
    );
    assert_eq!(
        flip_chojongseong_horizontally("집사가말여! 잘못해서 않해서!!!! 어!!!!!"),
        "이사하않셔! 하못잴어 말개서!!!! 접!!!!!".to_owned()
    );
    assert_eq!(
        flip_chojongseong_horizontally("두뇌 3000% 가동중"),
        "중됭 3000% 가노두".to_owned()
    );
}

#[test]
fn test_flip_non_hangul_identity() {
    assert_eq!(flip_chojongseong_horizontally(""), "".to_owned());
    assert_eq!(
        flip_chojongseong_horizontally("no Hangul here, 1234 !?"),
        "no Hangul here, 1234 !?".to_owned()
    );
}

#[test]
fn test_flip_length_preservation() {
    for source in ["아무말 대잔치", "두뇌 3000% 가동중", "mixed 한글 and latin"] {
        let result = flip_chojongseong_horizontally(source);
        assert_eq!(result.chars().count(), source.chars().count());
    }
}

#[test]
fn test_flip_twice_is_identity() {
    // Flipping reverses the consonant-pair sequence; doing it twice restores
    // the original string.
    for source in ["사람이 사람답게 살아야", "아무말 대잔치", "두뇌 3000% 가동중"] {
        assert_eq!(
            flip_chojongseong_horizontally(&flip_chojongseong_horizontally(source)),
            source.to_owned()
        );
    }
}
