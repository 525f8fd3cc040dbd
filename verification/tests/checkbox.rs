use tform::{Checkbox, Field, KeyCode, KeyEvent, KeyModifiers, ValidationError};
use serde_json::Value;

#[test]
fn new_checkbox_is_unchecked() {
    let c = Checkbox::new("terms", "I agree");
    assert_eq!(c.id(), "terms");
    assert_eq!(c.label(), "I agree");
    assert!(!c.is_checked());
    assert!(!c.is_required());
    assert_eq!(c.height(), 1);
    assert_eq!(c.value(), Value::Bool(false));
    assert_eq!(c.validate(), Ok(()));
}

#[test]
fn enter_and_space_toggle() {
    let mut c = Checkbox::new("c", "C");
    assert!(c.handle_input(&KeyEvent::plain(KeyCode::Enter)));
    assert!(c.is_checked());
    assert_eq!(c.value(), Value::Bool(true));
    assert!(c.handle_input(&KeyEvent::plain(KeyCode::Char(' '))));
    assert!(!c.is_checked());
    assert!(c.handle_input(&KeyEvent::new(KeyCode::Char(' '), KeyModifiers::control())));
    assert!(c.is_checked());
}

#[test]
fn other_keys_are_declined_by_a_checkbox() {
    let mut c = Checkbox::new("c", "C").checked(true);
    for code in [KeyCode::Char('x'), KeyCode::Up, KeyCode::Down, KeyCode::Tab, KeyCode::Esc, KeyCode::Backspace, KeyCode::Other] {
        assert!(!c.handle_input(&KeyEvent::plain(code)));
    }
    assert!(c.is_checked());
}

#[test]
fn required_checkbox_must_be_checked() {
    let c = Checkbox::new("terms", "Terms").required();
    assert!(c.is_required());
    assert_eq!(
        c.validate(),
        Err(vec![ValidationError {
            field_id: "terms".to_string(),
            message: "Terms must be checked".to_string(),
        }])
    );
    assert_eq!(c.checked(true).validate(), Ok(()));
}

#[test]
fn checked_sets_the_state_and_toggle_flips_it() {
    let mut c = Checkbox::new("c", "C").checked(true);
    assert!(c.is_checked());
    c.toggle();
    assert!(!c.is_checked());
    let c = c.checked(false);
    assert!(!c.is_checked());
}

#[test]
fn checkbox_caption() {
    assert_eq!(Checkbox::new("c", "Subscribe").caption(), " Subscribe");
    assert_eq!(Checkbox::new("c", "Terms").required().caption(), " Terms*");
}
