use hangul_liaison::pushdown_jongseong;
use hangul_liaison::pushdown_jongseong_config;

#[test]
fn test_pushdown_jongseong() {
    assert_eq!(
        pushdown_jongseong("종성 내려 쓰기"),
        "종성 내려 쓰기".to_owned()
    );
    assert_eq!(
        pushdown_jongseong("입울 밖은 위험해!"),
        "이불 바끈 위험해!".to_owned()
    );
    assert_eq!(
        pushdown_jongseong("입울 밖은 윟엄해!"),
        "이불 바끈 윟엄해!".to_owned()
    );
    assert_eq!(
        pushdown_jongseong("벝엋잌인 쵝오야!"),
        "버터치킨 최고야!".to_owned()
    );
    assert_eq!(
        pushdown_jongseong("이 얾안아 뭇임웃이한 생각인이"),
        "이 얼마나 무시무시한 생가기니".to_owned()
    );
    assert_eq!(
        pushdown_jongseong("이 얾안아 뭇임웃잏안 생각인이"),
        "이 얼마나 무시무싷안 생가기니".to_owned()
    );
    assert_eq!(
        pushdown_jongseong("해돋이 돋아 다같이 같아"),
        "해돋이 도다 다같이 가타".to_owned()
    );

    assert_eq!(
        pushdown_jongseong_config("입울 밖은 윟엄해!", true),
        "이불 바끈 위험해!".to_owned()
    );
    assert_eq!(
        pushdown_jongseong_config("이 얾안아 뭇임웃잏안 생각인이", true),
        "이 얼마나 무시무시한 생가기니".to_owned()
    );
    assert_eq!(
        pushdown_jongseong_config("해돋이 돋아 다같이 같아", true),
        "해도디 도다 다가티 가타".to_owned()
    );
}

#[test]
fn test_pushdown_non_hangul_identity() {
    assert_eq!(pushdown_jongseong(""), "".to_owned());
    assert_eq!(
        pushdown_jongseong("no Hangul here, 1234 !?"),
        "no Hangul here, 1234 !?".to_owned()
    );
    assert_eq!(
        pushdown_jongseong_config("no Hangul here, 1234 !?", true),
        "no Hangul here, 1234 !?".to_owned()
    );
}

#[test]
fn test_pushdown_length_preservation() {
    for source in ["입울 밖은 위험해!", "해돋이 돋아 다같이 같아", "mixed 한글 and latin"] {
        for extended in [false, true] {
            let result = pushdown_jongseong_config(source, extended);
            assert_eq!(result.chars().count(), source.chars().count());
        }
    }
}

#[test]
fn test_pushdown_extended_agrees_without_triggers() {
    // No pair of this input meets an extended-only rule's trigger condition
    // or the palatalization guard, so the two rule sets give the same output.
    assert_eq!(
        pushdown_jongseong_config("입울 밖은 위험해!", true),
        "이불 바끈 위험해!".to_owned()
    );
}
