use leptonic::dropdown::CaretDirection;
use leptonic::dropdown::DropdownController;
use leptonic::dropdown::DropdownState;

#[test]
fn starts_closed() {
    let c = DropdownController::new();
    assert_eq!(c.state, DropdownState::Closed);
    assert!(!c.is_open());
}

#[test]
fn enabled_trigger_click_toggles_and_returns_to_start() {
    let mut c = DropdownController::new();
    let stopped = c.trigger_click(false);
    assert!(stopped);
    assert_eq!(c.state, DropdownState::Open);
    let stopped = c.trigger_click(false);
    assert!(stopped);
    assert_eq!(c.state, DropdownState::Closed);
}

#[test]
fn disabled_trigger_click_never_changes_state() {
    let mut c = DropdownController::new();
    assert!(!c.trigger_click(true));
    assert_eq!(c.state, DropdownState::Closed);
    let _ = c.trigger_click(false);
    assert_eq!(c.state, DropdownState::Open);
    assert!(!c.trigger_click(true));
    assert_eq!(c.state, DropdownState::Open);
}

#[test]
fn outside_click_always_closes() {
    let mut c = DropdownController::new();
    let _ = c.trigger_click(false);
    assert_eq!(c.state, DropdownState::Open);
    c.outside_click();
    assert_eq!(c.state, DropdownState::Closed);
    c.outside_click();
    assert_eq!(c.state, DropdownState::Closed);
}

#[test]
fn caret_points_up_exactly_while_open() {
    let mut c = DropdownController::new();
    assert_eq!(c.caret(), CaretDirection::Down);
    let _ = c.trigger_click(false);
    assert_eq!(c.caret(), CaretDirection::Up);
}

#[test]
fn disabling_suppresses_the_panel_without_closing_the_state() {
    let mut c = DropdownController::new();
    let _ = c.trigger_click(false);
    assert!(c.panel_active(false));
    assert!(!c.panel_active(true));
    assert_eq!(c.state, DropdownState::Open);
}
