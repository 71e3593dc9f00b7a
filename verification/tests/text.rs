use learn_model_with_linear_regression_api::cors::allowed_origins;
use learn_model_with_linear_regression_api::decimal::decimal_text;
use learn_model_with_linear_regression_api::text::{chars_of, is_white_space, trim};

#[test]
fn decimal_text_matches_display() {
    for n in [0u128, 7, 10, 99, 1_000_000, 20_000, u128::MAX] {
        assert_eq!(decimal_text(n), n.to_string());
    }
}

#[test]
fn trim_matches_str_trim() {
    for s in ["", "   ", " a b ", "\u{3000}x\u{85}", "x", "\n\tx y\r\n"] {
        assert_eq!(trim(s), s.trim());
    }
}

#[test]
fn is_white_space_matches_char_is_whitespace() {
    for u in 0u32..0x3100 {
        if let Some(c) = char::from_u32(u) {
            assert_eq!(is_white_space(c), c.is_whitespace(), "{u:#x}");
        }
    }
    assert_eq!(is_white_space('\u{10ffff}'), '\u{10ffff}'.is_whitespace());
}

#[test]
fn chars_of_lists_every_character() {
    assert_eq!(chars_of("aé€"), vec!['a', 'é', '€']);
}

#[test]
fn default_origin_is_kept() {
    assert_eq!(allowed_origins("http://localhost:4200"), vec!["http://localhost:4200".to_string()]);
}

#[test]
fn origins_are_split_and_trimmed() {
    assert_eq!(
        allowed_origins("http://localhost:4200, https://bozlak.dev"),
        vec!["http://localhost:4200".to_string(), "https://bozlak.dev".to_string()]
    );
}

#[test]
fn invalid_origins_are_skipped_and_empty_ones_kept() {
    assert_eq!(
        allowed_origins("a,,b\u{7f}, c\u{1}d ,e"),
        vec!["a".to_string(), "".to_string(), "e".to_string()]
    );
}
