use cosmic_vimified::detection::filters::{
    has_clickable_state, is_enabled_state, is_non_clickable_role, is_primary_clickable_role,
    is_reasonable_size, is_secondary_clickable_role, is_visible_state, should_process_element,
};
use cosmic_vimified::detection::types::{ElementBounds, Role, StateFlags};

fn flags(
    visible: bool,
    showing: bool,
    enabled: bool,
    sensitive: bool,
    focusable: bool,
    selectable: bool,
    checkable: bool,
) -> StateFlags {
    StateFlags {
        visible,
        showing,
        enabled,
        sensitive,
        focusable,
        selectable,
        checkable,
    }
}

fn good_flags() -> StateFlags {
    flags(true, true, true, false, false, false, false)
}

fn bounds(width: i32, height: i32) -> ElementBounds {
    ElementBounds {
        x: 0,
        y: 0,
        width,
        height,
    }
}

#[test]
fn test_role_sets() {
    assert!(is_primary_clickable_role(Role::Button));
    assert!(is_primary_clickable_role(Role::Link));
    assert!(!is_primary_clickable_role(Role::Menu));
    assert!(is_secondary_clickable_role(Role::Menu));
    assert!(is_secondary_clickable_role(Role::ListItem));
    assert!(!is_secondary_clickable_role(Role::Button));
    assert!(is_non_clickable_role(Role::Label));
    assert!(is_non_clickable_role(Role::Panel));
    assert!(!is_non_clickable_role(Role::Button));
}

#[test]
fn test_state_predicates() {
    assert!(is_visible_state(&good_flags()));
    assert!(!is_visible_state(&flags(true, false, true, false, false, false, false)));
    assert!(!is_visible_state(&flags(false, true, true, false, false, false, false)));

    assert!(is_enabled_state(&flags(true, true, false, true, false, false, false)));
    assert!(!is_enabled_state(&flags(true, true, false, false, false, false, false)));

    assert!(has_clickable_state(&flags(true, true, true, false, true, false, false)));
    assert!(has_clickable_state(&flags(true, true, true, false, false, false, true)));
    assert!(!has_clickable_state(&good_flags()));
}

#[test]
fn test_reasonable_size_edges() {
    assert!(is_reasonable_size(&bounds(10, 10)));
    assert!(is_reasonable_size(&bounds(2000, 2000)));
    assert!(!is_reasonable_size(&bounds(9, 100)));
    assert!(!is_reasonable_size(&bounds(100, 9)));
    assert!(!is_reasonable_size(&bounds(2001, 100)));
    assert!(!is_reasonable_size(&bounds(100, 2001)));
}

#[test]
fn test_button_accepted_unconditionally() {
    // A Button with Visible+Showing+Enabled and 50x20 bounds needs no
    // extra clickable-state flag.
    assert!(should_process_element(Role::Button, &good_flags(), &bounds(50, 20)));
}

#[test]
fn test_non_clickable_rejected_regardless() {
    // Even perfect state flags and bounds never make a non-clickable role
    // a hint target.
    let all = flags(true, true, true, true, true, true, true);
    for role in [
        Role::Icon,
        Role::Text,
        Role::Label,
        Role::Heading,
        Role::Paragraph,
        Role::StatusBar,
        Role::ToolTip,
        Role::Canvas,
        Role::Panel,
        Role::ScrollBar,
        Role::Separator,
    ] {
        assert!(!should_process_element(role, &all, &bounds(50, 20)));
    }
}

#[test]
fn test_secondary_needs_clickable_state() {
    assert!(!should_process_element(Role::Menu, &good_flags(), &bounds(50, 20)));
    let focusable = flags(true, true, true, false, true, false, false);
    assert!(should_process_element(Role::Menu, &focusable, &bounds(50, 20)));
}

#[test]
fn test_unknown_role_needs_clickable_state() {
    assert!(!should_process_element(Role::Other, &good_flags(), &bounds(50, 20)));
    let selectable = flags(true, true, true, false, false, true, false);
    assert!(should_process_element(Role::Other, &selectable, &bounds(50, 20)));
}

#[test]
fn test_filter_requires_visible_enabled_and_size() {
    let hidden = flags(false, true, true, false, false, false, false);
    assert!(!should_process_element(Role::Button, &hidden, &bounds(50, 20)));
    let disabled = flags(true, true, false, false, false, false, false);
    assert!(!should_process_element(Role::Button, &disabled, &bounds(50, 20)));
    assert!(!should_process_element(Role::Button, &good_flags(), &bounds(5, 20)));
    assert!(!should_process_element(Role::Button, &good_flags(), &bounds(50, 3000)));
}
