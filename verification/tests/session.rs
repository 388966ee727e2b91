use cosmic_vimified::commands::DaemonCommand;
use cosmic_vimified::detection::types::{DetectedElement, ElementBounds, Role};
use cosmic_vimified::hints::generator::HintLabel;
use cosmic_vimified::hints::ElementHint;
use cosmic_vimified::session::{
    classify_hints, HintState, OverlayAction, OverlayController, OverlayEvent, SelectionSession,
    SessionEvent, SessionState,
};

fn element(name: &str) -> DetectedElement {
    DetectedElement::new(
        ElementBounds {
            x: 10,
            y: 10,
            width: 100,
            height: 30,
        },
        Role::Button,
        name.to_string(),
        "App".to_string(),
        String::new(),
    )
}

fn hint(label: &str, name: &str) -> ElementHint {
    ElementHint::new(HintLabel::new(label.to_string()), element(name))
}

fn three_hints() -> Vec<ElementHint> {
    vec![hint("a", "E1"), hint("s", "E2"), hint("aa", "E3")]
}

#[test]
fn test_classify_empty_input_all_normal() {
    let states = classify_hints(&three_hints(), "");
    assert_eq!(states, vec![HintState::Normal, HintState::Normal, HintState::Normal]);
}

#[test]
fn test_classify_prefix_narrowing() {
    // "a" is a prefix of "a" and of "aa", but not of "s".
    let states = classify_hints(&three_hints(), "a");
    assert_eq!(
        states,
        vec![HintState::Highlighted, HintState::Dimmed, HintState::Highlighted]
    );
}

#[test]
fn test_feed_resolves_first_exact_match() {
    // The exact match on "a" wins immediately, even though "aa" is still
    // reachable as a prefix; E3 becomes unreachable by further typing.
    let mut session = SelectionSession::new(three_hints());
    match session.feed(SessionEvent::Char('a')) {
        SessionState::Resolved(e) => assert_eq!(e.name, "E1"),
        _ => panic!("expected resolution"),
    }
    assert_eq!(session.hints.len(), 0);
    assert_eq!(session.input, "");
}

#[test]
fn test_feed_keeps_session_open_without_exact_match() {
    let mut session = SelectionSession::new(vec![hint("as", "E1"), hint("ad", "E2")]);
    assert!(matches!(session.feed(SessionEvent::Char('a')), SessionState::Open));
    assert_eq!(session.input, "a");
    assert_eq!(session.hints.len(), 2);
    match session.feed(SessionEvent::Char('d')) {
        SessionState::Resolved(e) => assert_eq!(e.name, "E2"),
        _ => panic!("expected resolution"),
    }
}

#[test]
fn test_backspace_on_empty_input_is_noop() {
    let mut session = SelectionSession::new(three_hints());
    assert!(matches!(session.feed(SessionEvent::Backspace), SessionState::Open));
    assert_eq!(session.input, "");
    assert_eq!(session.hints.len(), 3);
}

#[test]
fn test_backspace_takes_last_character_back() {
    let mut session = SelectionSession::new(vec![hint("as", "E1")]);
    assert!(matches!(session.feed(SessionEvent::Char('a')), SessionState::Open));
    assert_eq!(session.input, "a");
    assert!(matches!(session.feed(SessionEvent::Backspace), SessionState::Open));
    assert_eq!(session.input, "");
}

#[test]
fn test_cancel_clears_session() {
    let mut session = SelectionSession::new(three_hints());
    assert!(matches!(session.feed(SessionEvent::Char('x')), SessionState::Open));
    assert!(matches!(session.feed(SessionEvent::Cancel), SessionState::Cancelled));
    assert_eq!(session.hints.len(), 0);
    assert_eq!(session.input, "");
}

#[test]
fn test_controller_show_hide_toggle_exit() {
    let mut controller = OverlayController::new();
    assert!(!controller.visible);

    assert!(matches!(
        controller.handle(OverlayEvent::Command(DaemonCommand::Show)),
        OverlayAction::StartScan
    ));
    assert!(controller.visible);

    assert!(matches!(
        controller.handle(OverlayEvent::Command(DaemonCommand::Hide)),
        OverlayAction::Idle
    ));
    assert!(!controller.visible);

    assert!(matches!(
        controller.handle(OverlayEvent::Command(DaemonCommand::Toggle)),
        OverlayAction::StartScan
    ));
    assert!(controller.visible);
    assert!(matches!(
        controller.handle(OverlayEvent::Command(DaemonCommand::Toggle)),
        OverlayAction::Idle
    ));
    assert!(!controller.visible);

    assert!(matches!(
        controller.handle(OverlayEvent::Command(DaemonCommand::Exit)),
        OverlayAction::Shutdown
    ));
}

#[test]
fn test_controller_detection_builds_hints() {
    let mut controller = OverlayController::new();
    controller.handle(OverlayEvent::Command(DaemonCommand::Show));
    let elements = vec![element("E1"), element("E2"), element("E3")];
    assert!(matches!(
        controller.handle(OverlayEvent::ElementsDetected(elements)),
        OverlayAction::Idle
    ));
    assert_eq!(controller.detected_elements.len(), 3);
    assert_eq!(controller.session.hints.len(), 3);
    assert_eq!(controller.session.hints[0].label.text, "a");
    assert_eq!(controller.session.hints[1].label.text, "s");
    assert_eq!(controller.session.hints[2].label.text, "d");
    assert_eq!(controller.session.hints[1].element.name, "E2");
}

#[test]
fn test_controller_key_selection_closes_overlay() {
    let mut controller = OverlayController::new();
    controller.handle(OverlayEvent::Command(DaemonCommand::Show));
    controller.handle(OverlayEvent::ElementsDetected(vec![element("E1"), element("E2")]));
    match controller.handle(OverlayEvent::Key(SessionEvent::Char('s'))) {
        OverlayAction::Choose(e) => assert_eq!(e.name, "E2"),
        _ => panic!("expected a selection"),
    }
    assert!(!controller.visible);
    assert_eq!(controller.session.hints.len(), 0);
    assert_eq!(controller.detected_elements.len(), 0);
}

#[test]
fn test_controller_ignores_keys_while_hidden() {
    let mut controller = OverlayController::new();
    assert!(matches!(
        controller.handle(OverlayEvent::Key(SessionEvent::Char('a'))),
        OverlayAction::Idle
    ));
    assert!(!controller.visible);
}

#[test]
fn test_controller_escape_closes_overlay() {
    let mut controller = OverlayController::new();
    controller.handle(OverlayEvent::Command(DaemonCommand::Show));
    controller.handle(OverlayEvent::ElementsDetected(vec![element("E1")]));
    assert!(matches!(
        controller.handle(OverlayEvent::Key(SessionEvent::Cancel)),
        OverlayAction::Idle
    ));
    assert!(!controller.visible);
    assert_eq!(controller.session.hints.len(), 0);
}
