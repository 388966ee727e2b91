use cosmic_vimified::hints::layout::{KeyboardLayout, LayoutMode};

#[test]
fn test_standard_layout() {
    let layout = KeyboardLayout::standard();
    assert_eq!(layout.chars(), vec!['a', 's', 'd', 'f', 'j', 'k', 'l', ';']);
}

#[test]
fn layout_test_left_handed_layout() {
    let layout = KeyboardLayout::left_handed();
    assert_eq!(layout.chars(), vec!['a', 's', 'd', 'f', 'g']);
}

#[test]
fn test_right_handed_layout() {
    let layout = KeyboardLayout::right_handed();
    assert_eq!(layout.chars(), vec!['h', 'j', 'k', 'l', ';']);
}

#[test]
fn layout_test_custom_layout() {
    let custom_chars = vec!['q', 'w', 'e', 'r'];
    let layout = KeyboardLayout::custom(custom_chars.clone());
    assert_eq!(layout.chars(), custom_chars);
}

#[test]
fn test_default_layout() {
    let layout = KeyboardLayout::default();
    assert_eq!(layout.mode, LayoutMode::Standard);
    assert_eq!(layout.chars(), vec!['a', 's', 'd', 'f', 'j', 'k', 'l', ';']);
}
