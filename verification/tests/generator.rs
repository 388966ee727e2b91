use cosmic_vimified::hints::generator::{HintGenerator, HintLabel};
use cosmic_vimified::hints::layout::KeyboardLayout;

#[test]
fn test_generate_zero_hints() {
    let generator = HintGenerator::default();
    let hints = generator.generate(0);
    assert_eq!(hints.len(), 0);
}

#[test]
fn test_generate_single_hints() {
    let generator = HintGenerator::default();
    let hints = generator.generate(8);

    assert_eq!(hints.len(), 8);
    assert_eq!(hints[0].text, "a");
    assert_eq!(hints[1].text, "s");
    assert_eq!(hints[2].text, "d");
    assert_eq!(hints[3].text, "f");
    assert_eq!(hints[4].text, "j");
    assert_eq!(hints[5].text, "k");
    assert_eq!(hints[6].text, "l");
    assert_eq!(hints[7].text, ";");
}

#[test]
fn test_generate_two_char_hints() {
    let generator = HintGenerator::default();
    let hints = generator.generate(10);

    assert_eq!(hints.len(), 10);
    assert_eq!(hints[8].text, "aa");
    assert_eq!(hints[9].text, "as");
}

#[test]
fn test_generate_many_hints() {
    let generator = HintGenerator::default();
    let hints = generator.generate(100);

    assert_eq!(hints.len(), 100);

    // All hints should be unique
    let unique_hints: std::collections::HashSet<_> = hints.iter().map(|h| &h.text).collect();
    assert_eq!(unique_hints.len(), 100);
}

#[test]
fn test_hint_label_matches() {
    let hint = HintLabel::new("as".to_string());

    assert!(hint.matches(""));
    assert!(hint.matches("a"));
    assert!(hint.matches("as"));
    assert!(!hint.matches("s"));
    assert!(!hint.matches("asd"));
}

#[test]
fn test_hint_label_exact_match() {
    let hint = HintLabel::new("as".to_string());

    assert!(hint.is_exact_match("as"));
    assert!(!hint.is_exact_match("a"));
    assert!(!hint.is_exact_match("asd"));
}

#[test]
fn generator_test_left_handed_layout() {
    let layout = KeyboardLayout::left_handed();
    let generator = HintGenerator::new(layout);
    let hints = generator.generate(5);

    assert_eq!(hints.len(), 5);
    assert_eq!(hints[0].text, "a");
    assert_eq!(hints[1].text, "s");
    assert_eq!(hints[2].text, "d");
    assert_eq!(hints[3].text, "f");
    assert_eq!(hints[4].text, "g");
}

#[test]
fn generator_test_custom_layout() {
    let layout = KeyboardLayout::custom(vec!['q', 'w']);
    let generator = HintGenerator::new(layout);
    let hints = generator.generate(4);

    assert_eq!(hints.len(), 4);
    assert_eq!(hints[0].text, "q");
    assert_eq!(hints[1].text, "w");
    assert_eq!(hints[2].text, "qq");
    assert_eq!(hints[3].text, "qw");
}

#[test]
fn test_no_duplicates_1000_hints() {
    let generator = HintGenerator::default();
    let hints = generator.generate(1000);

    assert_eq!(hints.len(), 1000);

    let unique_hints: std::collections::HashSet<_> = hints.iter().map(|h| &h.text).collect();
    assert_eq!(unique_hints.len(), 1000, "All hints must be unique");
}

#[test]
fn test_stable_prefix() {
    // A larger batch starts with exactly the smaller batch.
    let generator = HintGenerator::default();
    let small = generator.generate(5);
    let large = generator.generate(12);
    for i in 0..5 {
        assert_eq!(small[i].text, large[i].text);
    }
}

#[test]
fn test_hint_ordering() {
    let generator = HintGenerator::default();
    let hints = generator.generate(20);

    // First 8 should be single characters
    for i in 0..8 {
        assert_eq!(hints[i].text.len(), 1);
    }

    // Next hints should be two characters
    for i in 8..20 {
        assert_eq!(hints[i].text.len(), 2);
    }
}
