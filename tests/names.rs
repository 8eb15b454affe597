use anyinput::mouse::{MouseButton, MouseDevice};
use anyinput::result::{ActionInterrupt, InputError, Interrupt};
use anyinput::text::same_text;
use std::sync::Arc;

#[test]
fn button_names_ignore_case() {
    assert_eq!(MouseButton::from_str("Left"), Some(MouseButton::Left));
    assert_eq!(MouseButton::from_str("left"), Some(MouseButton::Left));
    assert_eq!(MouseButton::from_str("LEFT"), Some(MouseButton::Left));
    assert_eq!(MouseButton::from_str("RiGhT"), Some(MouseButton::Right));
    assert_eq!(MouseButton::from_str("MIDDLE"), Some(MouseButton::Middle));
}

#[test]
fn unknown_button_name_is_a_caller_error() {
    assert_eq!(MouseButton::from_str("center"), None);
    assert_eq!(MouseButton::from_str(""), None);
    let mouse = MouseDevice::new(Arc::new(()));
    match mouse.get_mouse_button("center") {
        Err(InputError::Error(m)) => assert_eq!(m, "Invalid mouse button"),
        _ => panic!("expected a caller error"),
    }
    assert!(matches!(mouse.get_mouse_button("Middle"), Ok(MouseButton::Middle)));
}

#[test]
fn folded_names_must_be_lower_case() {
    assert_eq!(MouseButton::from_folded("right"), Some(MouseButton::Right));
    assert_eq!(MouseButton::from_folded("Right"), None);
}

#[test]
fn error_messages() {
    assert_eq!(InputError::interrupt().message(), "Action interrupted by the user.");
    assert_eq!(InputError::error("boom".to_string()).message(), "boom");
    assert!(InputError::interrupt().is_interrupt());
    assert!(!InputError::error("x".to_string()).is_interrupt());
    assert_eq!(ActionInterrupt::new().__str__(), "Action interrupted by the user.");
    assert_eq!(Interrupt.message(), "User interrupted operation.");
}

#[test]
fn text_comparison() {
    assert!(same_text("mouse", "mouse"));
    assert!(!same_text("mouse", "mousE"));
    assert!(!same_text("mouse", "mice"));
    assert!(same_text("", ""));
}
