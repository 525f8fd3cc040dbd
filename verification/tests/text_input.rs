use tform::{
    Email, Field, KeyCode, KeyEvent, KeyModifiers, MinLength, Pattern, Rule, TextInput,
    ValidationError,
};
use serde_json::Value;

fn key(code: KeyCode) -> KeyEvent {
    KeyEvent::plain(code)
}

fn ctrl(c: char) -> KeyEvent {
    KeyEvent::new(KeyCode::Char(c), KeyModifiers::control())
}

fn type_text(input: &mut TextInput, text: &str) {
    for c in text.chars() {
        assert!(input.handle_input(&key(KeyCode::Char(c))));
    }
}

fn on_boundary(input: &TextInput) -> bool {
    input.text().is_char_boundary(input.cursor_position())
}

fn failure(id: &str, message: &str) -> ValidationError {
    ValidationError { field_id: id.to_string(), message: message.to_string() }
}

#[test]
fn new_text_input_is_empty() {
    let t = TextInput::new("name", "Full Name");
    assert_eq!(t.id(), "name");
    assert_eq!(t.label(), "Full Name");
    assert_eq!(t.text(), "");
    assert_eq!(t.cursor_position(), 0);
    assert_eq!(t.placeholder_text(), None);
    assert!(!t.is_required());
    assert_eq!(t.height(), 1);
    assert!(t.shown_errors().is_empty());
    assert_eq!(t.value(), Value::String(String::new()));
}

#[test]
fn typing_appends_and_advances_by_the_encoded_width() {
    let mut t = TextInput::new("t", "T");
    type_text(&mut t, "a");
    assert_eq!((t.text(), t.cursor_position()), ("a", 1));
    type_text(&mut t, "é");
    assert_eq!((t.text(), t.cursor_position()), ("aé", 3));
    type_text(&mut t, "日");
    assert_eq!((t.text(), t.cursor_position()), ("aé日", 6));
    type_text(&mut t, "😀");
    assert_eq!((t.text(), t.cursor_position()), ("aé日😀", 10));
}

#[test]
fn insertion_splices_at_the_cursor() {
    let mut t = TextInput::new("t", "T").initial_value("日本");
    assert_eq!(t.cursor_position(), 6);
    t.handle_input(&key(KeyCode::Left));
    assert_eq!(t.cursor_position(), 3);
    type_text(&mut t, "é");
    assert_eq!(t.text(), "日é本");
    assert_eq!(t.cursor_position(), 5);
    t.handle_input(&key(KeyCode::Home));
    type_text(&mut t, "x");
    assert_eq!(t.text(), "x日é本");
    assert_eq!(t.cursor_position(), 1);
}

#[test]
fn backspace_removes_the_character_before_the_cursor() {
    let mut t = TextInput::new("t", "T").initial_value("aé日😀");
    assert!(t.handle_input(&key(KeyCode::Backspace)));
    assert_eq!((t.text(), t.cursor_position()), ("aé日", 6));
    assert!(t.handle_input(&key(KeyCode::Backspace)));
    assert_eq!((t.text(), t.cursor_position()), ("aé", 3));
    assert!(t.handle_input(&key(KeyCode::Left)));
    assert!(t.handle_input(&key(KeyCode::Backspace)));
    assert_eq!((t.text(), t.cursor_position()), ("é", 0));
}

#[test]
fn backspace_at_the_start_is_a_no_op() {
    let mut t = TextInput::new("t", "T").initial_value("é");
    t.handle_input(&key(KeyCode::Home));
    assert!(t.handle_input(&key(KeyCode::Backspace)));
    assert_eq!((t.text(), t.cursor_position()), ("é", 0));
    let mut empty = TextInput::new("t", "T");
    assert!(empty.handle_input(&key(KeyCode::Backspace)));
    assert_eq!((empty.text(), empty.cursor_position()), ("", 0));
}

#[test]
fn delete_removes_the_character_at_the_cursor() {
    let mut t = TextInput::new("t", "T").initial_value("a日b");
    t.handle_input(&key(KeyCode::Home));
    t.handle_input(&key(KeyCode::Right));
    assert!(t.handle_input(&key(KeyCode::Delete)));
    assert_eq!((t.text(), t.cursor_position()), ("ab", 1));
    assert!(t.handle_input(&key(KeyCode::Delete)));
    assert_eq!((t.text(), t.cursor_position()), ("a", 1));
}

#[test]
fn delete_at_the_end_is_a_no_op() {
    let mut t = TextInput::new("t", "T").initial_value("日");
    assert!(t.handle_input(&key(KeyCode::Delete)));
    assert_eq!((t.text(), t.cursor_position()), ("日", 3));
}

#[test]
fn left_and_right_move_by_whole_characters() {
    let mut t = TextInput::new("t", "T").initial_value("aé日😀");
    let mut seen = vec![t.cursor_position()];
    for _ in 0..5 {
        assert!(t.handle_input(&key(KeyCode::Left)));
        seen.push(t.cursor_position());
    }
    assert_eq!(seen, vec![10, 6, 3, 1, 0, 0]);
    let mut seen = vec![];
    for _ in 0..5 {
        assert!(t.handle_input(&key(KeyCode::Right)));
        seen.push(t.cursor_position());
    }
    assert_eq!(seen, vec![1, 3, 6, 10, 10]);
}

#[test]
fn home_and_end_jump_to_the_ends() {
    let mut t = TextInput::new("t", "T").initial_value("日本語");
    assert!(t.handle_input(&key(KeyCode::Home)));
    assert_eq!(t.cursor_position(), 0);
    assert!(t.handle_input(&key(KeyCode::End)));
    assert_eq!(t.cursor_position(), 9);
}

#[test]
fn control_keys_move_and_clear() {
    let mut t = TextInput::new("t", "T").initial_value("héllo");
    assert!(t.handle_input(&ctrl('a')));
    assert_eq!(t.cursor_position(), 0);
    assert!(t.handle_input(&ctrl('e')));
    assert_eq!(t.cursor_position(), 6);
    assert!(t.handle_input(&ctrl('u')));
    assert_eq!((t.text(), t.cursor_position()), ("", 0));
}

#[test]
fn other_control_characters_are_declined() {
    let mut t = TextInput::new("t", "T").initial_value("ab");
    assert!(!t.handle_input(&ctrl('c')));
    assert!(!t.handle_input(&ctrl('x')));
    assert_eq!((t.text(), t.cursor_position()), ("ab", 2));
}

#[test]
fn shift_and_alt_do_not_stop_typing() {
    let mut t = TextInput::new("t", "T");
    assert!(t.handle_input(&KeyEvent::new(KeyCode::Char('A'), KeyModifiers::shift())));
    let alt = KeyModifiers { shift: false, control: false, alt: true };
    assert!(t.handle_input(&KeyEvent::new(KeyCode::Char('b'), alt)));
    assert_eq!(t.text(), "Ab");
}

#[test]
fn unrecognised_keys_are_declined() {
    let mut t = TextInput::new("t", "T").initial_value("ab");
    for code in [KeyCode::Up, KeyCode::Down, KeyCode::Tab, KeyCode::Enter, KeyCode::Esc, KeyCode::Other] {
        assert!(!t.handle_input(&key(code)));
    }
    assert_eq!((t.text(), t.cursor_position()), ("ab", 2));
}

#[test]
fn cursor_stays_on_a_boundary_under_any_keys() {
    let chars = ['a', 'é', '日', '😀', ' ', '\u{80}', '\u{7ff}', '\u{800}', '\u{10000}'];
    let mut seed: u32 = 12345;
    let mut t = TextInput::new("t", "T");
    let mut model: Vec<char> = Vec::new();
    let mut cursor: usize = 0;
    for _ in 0..4000 {
        seed = seed.wrapping_mul(1664525).wrapping_add(1013904223);
        let pick = (seed >> 16) % 12;
        let c = chars[((seed >> 8) % 9) as usize];
        match pick {
            0..=3 => {
                t.handle_input(&key(KeyCode::Char(c)));
                model.insert(cursor, c);
                cursor += 1;
            }
            4 | 5 => {
                t.handle_input(&key(KeyCode::Backspace));
                if cursor > 0 {
                    model.remove(cursor - 1);
                    cursor -= 1;
                }
            }
            6 => {
                t.handle_input(&key(KeyCode::Delete));
                if cursor < model.len() {
                    model.remove(cursor);
                }
            }
            7 | 8 => {
                t.handle_input(&key(KeyCode::Left));
                cursor = cursor.saturating_sub(1);
            }
            9 => {
                t.handle_input(&key(KeyCode::Right));
                if cursor < model.len() {
                    cursor += 1;
                }
            }
            10 => {
                t.handle_input(&key(KeyCode::Home));
                cursor = 0;
            }
            _ => {
                t.handle_input(&key(KeyCode::End));
                cursor = model.len();
            }
        }
        assert!(on_boundary(&t));
        let expected: String = model.iter().collect();
        assert_eq!(t.text(), expected);
        let before: String = model[..cursor].iter().collect();
        assert_eq!(t.cursor_position(), before.len());
    }
}

#[test]
fn editing_helpers_can_be_called_directly() {
    let mut t = TextInput::new("t", "T");
    t.insert_char('日');
    t.insert_char('本');
    t.move_cursor_left();
    assert_eq!(t.cursor_position(), 3);
    t.delete_char_at_cursor();
    assert_eq!(t.text(), "日");
    t.delete_char_before_cursor();
    assert_eq!((t.text(), t.cursor_position()), ("", 0));
    t.insert_char('x');
    t.move_cursor_home();
    t.move_cursor_right();
    assert_eq!(t.cursor_position(), 1);
    t.move_cursor_home();
    t.move_cursor_end();
    assert_eq!(t.cursor_position(), 1);
    t.clear_line();
    assert_eq!((t.text(), t.cursor_position()), ("", 0));
}

#[test]
fn builder_methods_set_what_they_name() {
    let t = TextInput::new("email", "Email")
        .placeholder("john@example.com")
        .required()
        .validator(Rule::Email(Email))
        .initial_value("a@b.co");
    assert_eq!(t.placeholder_text(), Some("john@example.com"));
    assert!(t.is_required());
    assert_eq!(t.text(), "a@b.co");
    assert_eq!(t.cursor_position(), 6);
    assert_eq!(t.validate(), Ok(()));
}

#[test]
fn required_text_input_rejects_empty_and_blank() {
    let t = TextInput::new("name", "Full Name").required();
    assert_eq!(t.validate(), Err(vec![failure("name", "Full Name is required")]));
    let t = TextInput::new("name", "Full Name").required().initial_value("  \t");
    assert_eq!(t.validate(), Err(vec![failure("name", "Full Name is required")]));
    let t = TextInput::new("name", "Full Name").required().initial_value(" x ");
    assert_eq!(t.validate(), Ok(()));
}

#[test]
fn optional_empty_input_with_format_rules_is_valid() {
    let t = TextInput::new("email", "Email")
        .validator(Rule::Email(Email))
        .validator(Rule::MinLength(MinLength(5)))
        .validator(Rule::Pattern(Pattern::date().unwrap()));
    assert_eq!(t.validate(), Ok(()));
}

#[test]
fn validate_collects_every_failure_in_order() {
    let t = TextInput::new("email", "Email")
        .required()
        .validator(Rule::MinLength(MinLength(5)))
        .validator(Rule::Email(Email))
        .validator(Rule::Pattern(Pattern::zip_code().unwrap()))
        .initial_value("a@b");
    assert_eq!(
        t.validate(),
        Err(vec![
            failure("email", "Must be at least 5 characters"),
            failure("email", "Invalid email address"),
            failure("email", "Invalid ZIP code format"),
        ])
    );
}

#[test]
fn validate_puts_the_required_failure_first() {
    let t = TextInput::new("x", "X")
        .required()
        .validator(Rule::MinLength(MinLength(5)))
        .initial_value("  ");
    assert_eq!(
        t.validate(),
        Err(vec![failure("x", "X is required"), failure("x", "Must be at least 5 characters")])
    );
}

#[test]
fn value_is_the_content_as_a_string() {
    let t = TextInput::new("x", "X").initial_value("héllo");
    assert_eq!(t.value(), Value::String("héllo".to_string()));
}

#[test]
fn caption_and_display_text() {
    let t = TextInput::new("x", "Name");
    assert_eq!(t.caption(), "Name: ");
    assert_eq!(t.display_text(), "");
    assert!(!t.shows_placeholder());
    let t = t.required().placeholder("John Doe");
    assert_eq!(t.caption(), "Name*: ");
    assert_eq!(t.display_text(), "John Doe");
    assert!(t.shows_placeholder());
    let t = t.initial_value("Ann");
    assert_eq!(t.display_text(), "Ann");
    assert!(!t.shows_placeholder());
}

#[test]
fn cursor_column_is_the_displayed_width_before_the_cursor() {
    let mut t = TextInput::new("x", "X").initial_value("a日本b");
    assert_eq!(t.cursor_column(), 6);
    t.handle_input(&key(KeyCode::Left));
    assert_eq!(t.cursor_column(), 5);
    t.handle_input(&key(KeyCode::Left));
    assert_eq!(t.cursor_column(), 3);
    t.handle_input(&key(KeyCode::Left));
    assert_eq!(t.cursor_column(), 1);
    t.handle_input(&key(KeyCode::Home));
    assert_eq!(t.cursor_column(), 0);
}
