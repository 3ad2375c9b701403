use hangul_liaison::pullup_choseong;
use hangul_liaison::pullup_choseong_config;
use hangul_liaison::pushdown_jongseong;

#[test]
fn test_pullup_choseong() {
    assert_eq!(pullup_choseong("초성 올려 쓰기"), "촛엉 올려 쓱이".to_owned());
    assert_eq!(
        pullup_choseong("이불 밖은 위험해!"),
        "입울 밖은 위험해!".to_owned()
    );
    assert_eq!(
        pullup_choseong("버터치킨 최고야!"),
        "벝엋잌인 쵝오야!".to_owned()
    );
    assert_eq!(
        pullup_choseong("이 얼마나 무시무시한 생각이니"),
        "이 얾안아 뭇임웃이한 생각인이".to_owned()
    );

    assert_eq!(
        pullup_choseong_config("이불 밖은 위험해!", true),
        "입울 밖은 윟엄해!".to_owned()
    );
    assert_eq!(
        pullup_choseong_config("이 얼마나 무시무시한 생각이니", true),
        "이 얾안아 뭇임웃잏안 생각인이".to_owned()
    );
}

#[test]
fn test_pullup_non_hangul_identity() {
    assert_eq!(pullup_choseong(""), "".to_owned());
    assert_eq!(
        pullup_choseong("no Hangul here, 1234 !?"),
        "no Hangul here, 1234 !?".to_owned()
    );
    assert_eq!(
        pullup_choseong_config("no Hangul here, 1234 !?", true),
        "no Hangul here, 1234 !?".to_owned()
    );
}

#[test]
fn test_pullup_length_preservation() {
    for source in ["초성 올려 쓰기", "버터치킨 최고야!", "mixed 한글 and latin"] {
        for extended in [false, true] {
            let result = pullup_choseong_config(source, extended);
            assert_eq!(result.chars().count(), source.chars().count());
        }
    }
}

#[test]
fn test_pullup_extended_agrees_without_triggers() {
    // No pair of this input meets an extended-only rule's trigger condition,
    // so the two rule sets give the same output.
    assert_eq!(
        pullup_choseong_config("초성 올려 쓰기", true),
        pullup_choseong_config("초성 올려 쓰기", false)
    );
}

#[test]
fn test_pullup_then_pushdown_roundtrip() {
    // A spot check, not a universal law: push-down undoes this pull-up.
    assert_eq!(
        pushdown_jongseong(&pullup_choseong("이불 밖은 위험해!")),
        "이불 바끈 위험해!".to_owned()
    );
}
