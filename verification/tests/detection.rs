use cosmic_vimified::detection::types::{DetectedElement, ElementBounds, Role};

#[test]
fn test_bounds_center() {
    let b = ElementBounds {
        x: 100,
        y: 200,
        width: 100,
        height: 30,
    };
    assert_eq!(b.center(), (150, 215));
}

#[test]
fn test_bounds_is_valid() {
    // A zero width never describes a clickable rectangle.
    let degenerate = ElementBounds {
        x: 0,
        y: 0,
        width: 0,
        height: 5,
    };
    assert!(!degenerate.is_valid());
    let flat = ElementBounds {
        x: 0,
        y: 0,
        width: 5,
        height: 0,
    };
    assert!(!flat.is_valid());
    let ok = ElementBounds {
        x: -3,
        y: -4,
        width: 5,
        height: 5,
    };
    assert!(ok.is_valid());
}

#[test]
fn test_bounds_is_on_screen() {
    let b = ElementBounds {
        x: 10,
        y: 10,
        width: 100,
        height: 100,
    };
    assert!(b.is_on_screen(1920, 1080));
    assert!(!b.is_on_screen(100, 1080));
    let off_left = ElementBounds {
        x: -1,
        y: 10,
        width: 50,
        height: 50,
    };
    assert!(!off_left.is_on_screen(1920, 1080));
}

#[test]
fn test_detected_element_new() {
    let element = DetectedElement::new(
        ElementBounds {
            x: 1,
            y: 2,
            width: 30,
            height: 40,
        },
        Role::CheckBox,
        "name".to_string(),
        "app".to_string(),
        "desc".to_string(),
    );
    assert_eq!(element.role, "CheckBox");
    assert_eq!(element.name, "name");
    assert_eq!(element.app_name, "app");
    assert_eq!(element.description, "desc");
    assert_eq!(element.center(), (16, 22));
}
