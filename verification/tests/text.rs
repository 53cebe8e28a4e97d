use provider_models::models::{ReasoningEffort, ServiceTier};
use provider_models::text::{
    ascii_lowercase, blank, byte_len, decimal_text, same_text, single_line, token, trimmed,
};

#[test]
fn white_space_is_what_unicode_says() {
    for code in 0..0x11_0000u32 {
        if let Some(c) = char::from_u32(code) {
            let text = c.to_string();
            assert_eq!(blank(&text), c.is_whitespace(), "{code:x}");
            assert_eq!(trimmed(&text), !c.is_whitespace(), "{code:x}");
            assert_eq!(
                single_line(&text),
                !c.is_control() && c != '\u{2028}' && c != '\u{2029}',
                "{code:x}"
            );
        }
    }
    assert!(blank(""));
    assert!(trimmed(""));
    assert!(trimmed("a b"));
    assert!(!trimmed("a "));
    assert!(!trimmed(" a"));
}

#[test]
fn tokens_hold_letters_digits_and_five_signs() {
    for byte in 0..128u8 {
        let c = byte as char;
        assert_eq!(token(&c.to_string()), c.is_ascii_alphanumeric() || "-_.:/".contains(c));
    }
    assert!(!token("é"));
    assert!(token(""));
}

#[test]
fn numerals_have_no_leading_zeros() {
    for n in [0, 7, 10, 99, 100, 262_144, u64::MAX] {
        assert_eq!(decimal_text(n), n.to_string());
    }
}

#[test]
fn lengths_are_in_bytes() {
    assert_eq!(byte_len("aé€😀"), 10);
    assert_eq!(byte_len(""), 0);
}

#[test]
fn texts_are_compared_and_lowered() {
    assert!(same_text("abc", "abc"));
    assert!(!same_text("abc", "abd"));
    assert!(!same_text("abc", "ab"));
    assert_eq!(ascii_lowercase("AbZ-É1"), "abz-É1");
}

#[test]
fn efforts_are_named_by_their_ids() {
    for id in ["none", "minimal", "low", "medium", "high", "xhigh", "deep"] {
        assert_eq!(ReasoningEffort::from_id(id).as_str(), id);
    }
    assert_eq!(ReasoningEffort::from_id("high"), ReasoningEffort::High);
    assert_ne!(ReasoningEffort::from_id("High"), ReasoningEffort::High);
    assert_eq!(ReasoningEffort::Custom("low".to_string()), ReasoningEffort::Low);
}

#[test]
fn service_tiers_are_read_by_name_and_written_by_value() {
    assert_eq!(ServiceTier::Fast.request_value(), "priority");
    assert_eq!(ServiceTier::Flex.request_value(), "flex");
    assert_eq!(ServiceTier::from_request_value("priority"), Some(ServiceTier::Fast));
    assert_eq!(ServiceTier::from_request_value("fast"), Some(ServiceTier::Fast));
    assert_eq!(ServiceTier::from_request_value("flex"), Some(ServiceTier::Flex));
    assert_eq!(ServiceTier::from_request_value("default"), None);
}
