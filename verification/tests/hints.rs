use cosmic_vimified::detection::types::{DetectedElement, ElementBounds, Role};
use cosmic_vimified::hints::generate_hints_for_elements;
use cosmic_vimified::hints::generator::HintLabel;
use cosmic_vimified::hints::layout::KeyboardLayout;
use cosmic_vimified::hints::ElementHint;

fn create_test_element(x: i32, y: i32) -> DetectedElement {
    DetectedElement::new(
        ElementBounds {
            x,
            y,
            width: 100,
            height: 30,
        },
        Role::Button,
        "Test Button".to_string(),
        "Test App".to_string(),
        "A test button".to_string(),
    )
}

#[test]
fn test_generate_hints_for_elements() {
    let elements = vec![
        create_test_element(100, 100),
        create_test_element(200, 200),
        create_test_element(300, 300),
    ];

    let layout = KeyboardLayout::standard();
    let hints = generate_hints_for_elements(elements, &layout);

    assert_eq!(hints.len(), 3);
    assert_eq!(hints[0].label.text, "a");
    assert_eq!(hints[1].label.text, "s");
    assert_eq!(hints[2].label.text, "d");
}

#[test]
fn test_element_hint_matches() {
    let element = create_test_element(100, 100);
    let label = HintLabel::new("as".to_string());
    let hint = ElementHint::new(label, element);

    assert!(hint.matches(""));
    assert!(hint.matches("a"));
    assert!(hint.matches("as"));
    assert!(!hint.matches("s"));
}

#[test]
fn test_element_hint_exact_match() {
    let element = create_test_element(100, 100);
    let label = HintLabel::new("as".to_string());
    let hint = ElementHint::new(label, element);

    assert!(hint.is_exact_match("as"));
    assert!(!hint.is_exact_match("a"));
    assert!(!hint.is_exact_match("asd"));
}
