//! Texts, numerals, ordered maps, single-precision values and states.

use assistant_core::domain::AssistantState;
use assistant_core::float32::{Real32, HUNDRED_BITS, ONE_BITS, ZERO_BITS};
use assistant_core::number::{hexadecimal_text, parse_i32, parse_i64, parse_u64, parse_u8, push_decimal, push_hexadecimal, signed_decimal_text};
use assistant_core::text::{blank, join, strip_prefix, text_precedes, trim, words_of};
use assistant_core::text_map::TextMap;

#[test]
fn numerals_are_read_and_written() {
    for value in [0, 7, -7, 10, 35, i64::MAX, i64::MIN] {
        assert_eq!(signed_decimal_text(value), value.to_string());
        assert_eq!(parse_i64(&signed_decimal_text(value)), Some(value));
    }
    let mut text = String::from("n=");
    push_decimal(&mut text, u64::MAX);
    assert_eq!(text, "n=18446744073709551615");
    assert_eq!(parse_u64("18446744073709551615"), Some(u64::MAX));
    assert_eq!(parse_u64("18446744073709551616"), None);
    assert_eq!(parse_u64("+5"), Some(5));
    assert_eq!(parse_u64("-5"), None);
    assert_eq!(parse_i64("9223372036854775808"), None);
    assert_eq!(parse_i32("-2147483648"), Some(i32::MIN));
    assert_eq!(parse_u8("256"), None);
    assert_eq!(parse_u8(""), None);
    assert_eq!(parse_u8("1 "), None);
}

#[test]
fn hexadecimal_digits_are_lower_case() {
    let mut text = String::new();
    push_hexadecimal(&mut text, 0x1f, 4);
    assert_eq!(text, "001f");
    assert_eq!(hexadecimal_text(&vec![0, 255, 16]), "00ff10");
}

#[test]
fn words_are_split_at_white_space() {
    assert_eq!(words_of(" a\tb\u{a0}c\n"), ["a", "b", "c"]);
    assert_eq!(join(&words_of("  a   b ")), "a b");
    assert_eq!(trim("\u{2003}a b "), "a b");
    assert!(blank(" \u{3000}"));
    assert!(!blank("."));
    assert_eq!(strip_prefix("ассистент открой", "ассистент "), Some("открой".to_string()));
    assert_eq!(strip_prefix("a", "b"), None);
}

#[test]
fn texts_are_ordered_by_code_point() {
    assert!(text_precedes("a", "b"));
    assert!(text_precedes("", "a"));
    assert!(text_precedes("a", "aa"));
    assert!(!text_precedes("a", "a"));
    assert!(text_precedes("z", "а"));
}

#[test]
fn maps_keep_one_value_per_key_in_order() {
    let mut map = TextMap::new();
    for key in ["b", "a", "c", "b"] {
        map.insert(key.to_string(), format!("{key}{}", map.len()));
    }
    assert_eq!(map.len(), 3);
    let keys: Vec<&String> = (0..map.len()).map(|i| map.key_at(i)).collect();
    assert_eq!(keys, ["a", "b", "c"]);
    assert_eq!(map.get("b").unwrap(), "b3");
    assert_eq!(map.value_at(0), "a1");
    assert!(map.contains_key("c"));
    assert!(map.get("d").is_none());
    assert_eq!(map.clone(), map);
}

#[test]
fn single_precision_values_compare_as_numbers() {
    let values = [
        f32::NEG_INFINITY,
        -100.0,
        -1.0,
        -f32::MIN_POSITIVE,
        -0.0,
        0.0,
        f32::from_bits(1),
        0.35,
        1.0,
        1.5,
        100.0,
        f32::MAX,
        f32::INFINITY,
        f32::NAN,
    ];
    for left in values {
        for right in values {
            let (a, b) = (Real32::from_bits(left.to_bits()), Real32::from_bits(right.to_bits()));
            assert_eq!(a.at_most(b), left <= right, "{left} <= {right}");
            assert_eq!(a.equals(b), left == right, "{left} == {right}");
        }
        assert_eq!(Real32::from_bits(left.to_bits()).is_finite(), left.is_finite());
    }
    assert_eq!(f32::from_bits(ZERO_BITS), 0.0);
    assert_eq!(f32::from_bits(ONE_BITS), 1.0);
    assert_eq!(f32::from_bits(HUNDRED_BITS), 100.0);
}

#[test]
fn shutdown_is_the_last_state() {
    let states = [
        AssistantState::Starting,
        AssistantState::IdleListening,
        AssistantState::SpeechDetected,
        AssistantState::WakeWordDetected,
        AssistantState::CapturingCommand,
        AssistantState::Transcribing,
        AssistantState::MatchingCommand,
        AssistantState::AwaitingConfirmation,
        AssistantState::ExecutingCommand,
        AssistantState::Cooldown,
        AssistantState::Suspended,
        AssistantState::Recovering,
        AssistantState::Faulted,
        AssistantState::ShuttingDown,
    ];
    for state in states {
        assert!(!AssistantState::ShuttingDown.can_transition_to(state));
        assert_eq!(
            state.can_transition_to(AssistantState::ShuttingDown),
            state != AssistantState::ShuttingDown
        );
    }
    assert!(AssistantState::Cooldown.can_transition_to(AssistantState::IdleListening));
    assert!(!AssistantState::Starting.can_transition_to(AssistantState::Cooldown));
}
