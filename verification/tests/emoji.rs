use emojied::emoji::{is_valid, random_sequence, range};

#[test]
fn single_char_emoji() {
    assert!(is_valid("🍆"));
}

#[test]
fn emoji_with_zwjs() {
    assert!(is_valid("👨‍👨‍👧‍👧"))
}

#[test]
fn not_an_emoji() {
    assert!(!is_valid("नमस्ते्"));
}

#[test]
fn digits_should_fail() {
    for num_str in ["1", "2", "3", "4", "5", "6", "7", "8", "9", "0"] {
        assert!(!is_valid(num_str));
    }
}

#[test]
fn emoji_with_variation_selector() {
    // This one has a \u{FE0F} character but it doesn't show in neovim.
    assert!(is_valid("❤️‍🔥"));
}

#[test]
fn valid_emoji_range() {
    assert!(range().iter().all(|e| unic_emoji_char::is_emoji(e)))
}

#[test]
fn never_gonna_give_you_up() {
    let sample = "❤️👨‍🦰🚫⬆️⬇️👱‍♀️";
    assert!(is_valid(sample));
}

#[test]
fn other_emojis() {
    let sample = "🫂🍑🥺";
    assert!(is_valid(sample));
}

#[test]
fn empty_identifier_is_valid() {
    assert!(is_valid(""));
}

#[test]
fn hair_components_are_valid() {
    for c in ['\u{1f9b0}', '\u{1f9b1}', '\u{1f9b2}', '\u{1f9b3}'] {
        assert!(is_valid(&c.to_string()));
    }
}

#[test]
fn mixed_text_is_invalid() {
    assert!(!is_valid("🍆a"));
    assert!(!is_valid("🍆 🍆"));
    assert!(!is_valid("🍆1"));
}

#[test]
fn emoji_keycap_digit_is_invalid() {
    // A keycap sequence starts with an ASCII digit.
    assert!(!is_valid("1\u{FE0F}\u{20E3}"));
}

#[test]
fn range_is_emoticons_block() {
    let r = range();
    assert_eq!(r.low, '\u{1f600}');
    assert_eq!(r.high, '\u{1f64f}');
    assert_eq!(r.iter().count(), 80);
}

#[test]
fn random_sequences_are_valid_emoticons() {
    for _ in 0..20 {
        let s = random_sequence();
        let chars: Vec<char> = s.chars().collect();
        assert_eq!(chars.len(), 6);
        assert!(chars.iter().all(|c| ('\u{1f600}'..='\u{1f64f}').contains(c)));
        assert!(is_valid(&s));
    }
}

#[test]
fn joiner_and_selector_alone_are_valid() {
    assert!(is_valid("\u{200D}"));
    assert!(is_valid("\u{FE0F}"));
    assert!(is_valid("\u{1F600}\u{200D}\u{1F64F}"));
}
