mod chars;
mod error;
mod flip;
mod jamo;
mod pullup;
mod pushdown;
mod rules;
mod syllable;

pub use error::Error;
pub use flip::flip_chojongseong_horizontally;
pub use flip::flip_from;
pub use flip::flip_spec;
pub use flip::lemma_flip_non_hangul_identity;
pub use flip::lemma_flip_preserves_count;
pub use flip::syllables_from;
pub use jamo::Choseong;
pub use jamo::Jongseong;
pub use jamo::Jungseong;
pub use pullup::lemma_pullup_extended_agrees;
pub use pullup::lemma_pullup_non_hangul_identity;
pub use pullup::lemma_pullup_preserves_count;
pub use pullup::pullup_choseong;
pub use pullup::pullup_choseong_config;
pub use pullup::pullup_current;
pub use pullup::pullup_from;
pub use pullup::pullup_ordinary_only;
pub use pullup::pullup_spec;
pub use pushdown::lemma_pushdown_extended_agrees;
pub use pushdown::lemma_pushdown_non_hangul_identity;
pub use pushdown::lemma_pushdown_preserves_count;
pub use pushdown::pushdown_current;
pub use pushdown::pushdown_from;
pub use pushdown::pushdown_jongseong;
pub use pushdown::pushdown_jongseong_config;
pub use pushdown::pushdown_ordinary_only;
pub use pushdown::pushdown_spec;
pub use rules::iotated;
pub use rules::lemma_pullup_rule_monotone;
pub use rules::lemma_pushdown_action_monotone;
pub use rules::palatal_guard;
pub use rules::pullup_rule;
pub use rules::pushdown_action;
pub use rules::pushdown_rule;
pub use syllable::compose;
pub use syllable::decompose;
pub use syllable::final_slot_of;
pub use syllable::is_korean_syllable;
pub use syllable::lemma_codepoint_in_range;
pub use syllable::lemma_compose_decompose_roundtrip;
pub use syllable::lemma_decompose_compose_roundtrip;
pub use syllable::Syllable;
