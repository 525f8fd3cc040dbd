use tform::{
    AddressBlock, Checkbox, ContactBlock, Email, Field, Form, FormBuilder, FormField, FormResult,
    FormStyle, KeyCode, KeyEvent, KeyModifiers, Rule, Select, TextInput, ValidationError,
};
use serde_json::Value;

fn key(code: KeyCode) -> KeyEvent {
    KeyEvent::plain(code)
}

fn shift_tab() -> KeyEvent {
    KeyEvent::new(KeyCode::Tab, KeyModifiers::shift())
}

fn type_text(form: &mut Form, text: &str) {
    for c in text.chars() {
        form.handle_input(key(KeyCode::Char(c)));
    }
}

fn focus(form: &Form) -> Option<usize> {
    if form.focus().is_submit_focused() {
        None
    } else {
        Some(form.focus().current_index())
    }
}

fn go_to_submit(form: &mut Form) {
    while !form.focus().is_submit_focused() {
        form.handle_input(key(KeyCode::Tab));
    }
}

fn submit(form: &mut Form) {
    go_to_submit(form);
    form.handle_input(key(KeyCode::Enter));
}

/// The members of an object, in their order.
fn members(value: &Value) -> Vec<(String, Value)> {
    match value {
        Value::Object(map) => map.iter().map(|(k, v)| (k.clone(), v.clone())).collect(),
        _ => panic!("no object"),
    }
}

fn failure(id: &str, message: &str) -> ValidationError {
    ValidationError { field_id: id.to_string(), message: message.to_string() }
}

fn text_of(form: &Form, index: usize) -> String {
    match &form.fields()[index] {
        FormField::Text(t) => t.text().to_string(),
        _ => panic!("field {} is no text input", index),
    }
}

fn object(pairs: Vec<(&str, Value)>) -> Value {
    let mut map = serde_json::Map::new();
    for (key, value) in pairs {
        map.insert(key.to_string(), value);
    }
    Value::Object(map)
}

fn string(s: &str) -> Value {
    Value::String(s.to_string())
}

fn name_and_email() -> Form {
    Form::builder()
        .title("Sign up")
        .text("name", "Name")
        .required()
        .done()
        .text("email", "Email")
        .required()
        .validator(Rule::Email(Email))
        .done()
        .build()
}

#[test]
fn built_form_is_active_and_focused_on_the_first_field() {
    let form = name_and_email();
    assert_eq!(form.title(), Some("Sign up"));
    assert_eq!(form.result(), &FormResult::Active);
    assert!(form.is_active());
    assert_eq!(form.fields().len(), 2);
    assert_eq!(form.focus().field_count(), 2);
    assert_eq!(focus(&form), Some(0));
    assert!(form.validation_errors().is_empty());
    assert_eq!(form.style(), &FormStyle::default());
    assert_eq!(form.error_summary(), None);
}

#[test]
fn tab_and_shift_tab_cycle_the_focus() {
    let mut form = name_and_email();
    form.handle_input(key(KeyCode::Tab));
    assert_eq!(focus(&form), Some(1));
    form.handle_input(key(KeyCode::Tab));
    assert_eq!(focus(&form), None);
    form.handle_input(key(KeyCode::Tab));
    assert_eq!(focus(&form), Some(0));
    form.handle_input(shift_tab());
    assert_eq!(focus(&form), None);
    form.handle_input(shift_tab());
    assert_eq!(focus(&form), Some(1));
}

#[test]
fn tab_is_never_offered_to_the_field() {
    let mut form = name_and_email();
    type_text(&mut form, "ab");
    form.handle_input(key(KeyCode::Tab));
    assert_eq!(text_of(&form, 0), "ab");
    assert_eq!(text_of(&form, 1), "");
}

#[test]
fn typed_characters_go_to_the_focused_field() {
    let mut form = name_and_email();
    type_text(&mut form, "Ann");
    form.handle_input(key(KeyCode::Tab));
    type_text(&mut form, "a@b.co");
    form.handle_input(key(KeyCode::Backspace));
    assert_eq!(text_of(&form, 0), "Ann");
    assert_eq!(text_of(&form, 1), "a@b.c");
}

#[test]
fn keys_are_discarded_while_submit_has_the_focus() {
    let mut form = name_and_email();
    go_to_submit(&mut form);
    type_text(&mut form, "xyz");
    form.handle_input(key(KeyCode::Backspace));
    assert_eq!(text_of(&form, 0), "");
    assert_eq!(text_of(&form, 1), "");
    assert!(form.is_active());
    assert_eq!(focus(&form), None);
}

#[test]
fn arrows_move_the_focus_when_the_field_declines_them() {
    let mut form = name_and_email();
    form.handle_input(key(KeyCode::Down));
    assert_eq!(focus(&form), Some(1));
    form.handle_input(key(KeyCode::Down));
    assert_eq!(focus(&form), None);
    form.handle_input(key(KeyCode::Down));
    assert_eq!(focus(&form), Some(0));
    form.handle_input(key(KeyCode::Up));
    assert_eq!(focus(&form), None);
    form.handle_input(key(KeyCode::Up));
    assert_eq!(focus(&form), Some(1));
}

#[test]
fn a_select_captures_the_arrows() {
    let mut form = Form::builder()
        .select("color", "Color")
        .option("r", "Red")
        .option("g", "Green")
        .done()
        .text("name", "Name")
        .done()
        .build();
    form.handle_input(key(KeyCode::Down));
    assert_eq!(focus(&form), Some(0));
    match &form.fields()[0] {
        FormField::Select(s) => assert!(s.is_open()),
        _ => panic!("the first field is a select"),
    }
    form.handle_input(key(KeyCode::Down));
    form.handle_input(key(KeyCode::Down));
    form.handle_input(key(KeyCode::Up));
    assert_eq!(focus(&form), Some(0));
    form.handle_input(key(KeyCode::Enter));
    assert_eq!(form.fields()[0].value(), string("r"));
    form.handle_input(key(KeyCode::Up));
    assert_eq!(focus(&form), None);
}

#[test]
fn escape_cancels_whatever_has_the_focus() {
    let mut form = name_and_email();
    form.handle_input(key(KeyCode::Esc));
    assert_eq!(form.result(), &FormResult::Cancelled);
    assert!(!form.is_active());

    let mut form = name_and_email();
    go_to_submit(&mut form);
    form.handle_input(key(KeyCode::Esc));
    assert_eq!(form.result(), &FormResult::Cancelled);

    let mut form = Form::builder().select("c", "C").option("a", "A").done().build();
    form.handle_input(key(KeyCode::Enter));
    form.handle_input(key(KeyCode::Esc));
    assert_eq!(form.result(), &FormResult::Cancelled);
}

#[test]
fn a_cancelled_form_ignores_every_key() {
    let mut form = name_and_email();
    type_text(&mut form, "Ann");
    form.handle_input(key(KeyCode::Esc));
    type_text(&mut form, "more");
    form.handle_input(key(KeyCode::Tab));
    form.handle_input(key(KeyCode::Enter));
    assert_eq!(form.result(), &FormResult::Cancelled);
    assert_eq!(text_of(&form, 0), "Ann");
    assert_eq!(focus(&form), Some(0));
}

#[test]
fn a_submitted_form_ignores_every_key() {
    let mut form = Form::builder().text("name", "Name").done().build();
    type_text(&mut form, "Ann");
    submit(&mut form);
    assert_eq!(form.result(), &FormResult::Submitted);
    form.handle_input(key(KeyCode::Esc));
    assert_eq!(form.result(), &FormResult::Submitted);
    form.handle_input(key(KeyCode::Tab));
    type_text(&mut form, "x");
    assert_eq!(focus(&form), None);
    assert_eq!(text_of(&form, 0), "Ann");
}

#[test]
fn enter_submits_only_from_the_submit_slot() {
    let mut form = Form::builder().checkbox("c", "C").done().build();
    form.handle_input(key(KeyCode::Enter));
    assert!(form.is_active());
    assert_eq!(form.fields()[0].value(), Value::Bool(true));
    form.handle_input(key(KeyCode::Tab));
    form.handle_input(key(KeyCode::Enter));
    assert_eq!(form.result(), &FormResult::Submitted);
    assert!(form.validation_errors().is_empty());
}

#[test]
fn submit_focuses_the_first_field_that_fails() {
    let mut form = name_and_email();
    form.handle_input(key(KeyCode::Tab));
    type_text(&mut form, "not-an-email");
    submit(&mut form);
    assert!(form.is_active());
    assert_eq!(focus(&form), Some(0));
    assert_eq!(
        form.validation_errors(),
        &[failure("name", "Name is required"), failure("email", "Invalid email address")]
    );
    assert_eq!(form.error_summary(), Some("2 validation errors".to_string()));
}

#[test]
fn submit_skips_valid_fields_to_reach_the_first_failure() {
    let mut form = name_and_email();
    type_text(&mut form, "Ann");
    submit(&mut form);
    assert!(form.is_active());
    assert_eq!(focus(&form), Some(1));
    assert_eq!(form.validation_errors(), &[failure("email", "Email is required")]);
    assert_eq!(form.error_summary(), Some("1 validation error".to_string()));
}

#[test]
fn repeated_submits_land_on_the_earliest_broken_field() {
    let mut form = name_and_email();
    submit(&mut form);
    assert_eq!(focus(&form), Some(0));
    submit(&mut form);
    assert_eq!(focus(&form), Some(0));
    type_text(&mut form, "Ann");
    submit(&mut form);
    assert_eq!(focus(&form), Some(1));
    type_text(&mut form, "a@b.co");
    submit(&mut form);
    assert_eq!(form.result(), &FormResult::Submitted);
    assert!(form.validation_errors().is_empty());
    assert_eq!(form.error_summary(), None);
}

#[test]
fn required_empty_select_yields_one_error_and_takes_the_focus() {
    let mut form = Form::builder()
        .text("name", "Name")
        .done()
        .select("color", "Color")
        .option("r", "Red")
        .required()
        .done()
        .checkbox("ok", "OK")
        .done()
        .build();
    submit(&mut form);
    assert!(form.is_active());
    assert_eq!(form.validation_errors(), &[failure("color", "Color is required")]);
    assert_eq!(focus(&form), Some(1));
}

#[test]
fn a_failing_date_range_takes_the_focus() {
    let mut range = tform::DateRangeField::new("trip", true).unwrap();
    range.set_focused_side(0);
    let mut form = FormBuilder::new()
        .text("name", "Name")
        .done()
        .field(FormField::DateRange(range))
        .build();
    submit(&mut form);
    assert_eq!(focus(&form), Some(1));
    assert_eq!(
        form.validation_errors(),
        &[
            failure("trip_start", "Start Date is required"),
            failure("trip_end", "End Date is required"),
        ]
    );
}

#[test]
fn address_block_round_trip() {
    let mut form = Form::builder()
        .block(AddressBlock::new("ship").required())
        .unwrap()
        .build();
    assert_eq!(form.fields().len(), 5);
    type_text(&mut form, "1 Main St");
    form.handle_input(key(KeyCode::Tab));
    form.handle_input(key(KeyCode::Tab));
    type_text(&mut form, "Springfield");
    form.handle_input(key(KeyCode::Tab));
    form.handle_input(key(KeyCode::Down));
    for _ in 0..4 {
        form.handle_input(key(KeyCode::Down));
    }
    form.handle_input(key(KeyCode::Enter));
    form.handle_input(key(KeyCode::Tab));
    type_text(&mut form, "12345-6789");
    submit(&mut form);
    assert_eq!(form.result(), &FormResult::Submitted);
    assert_eq!(
        members(&form.to_json()),
        vec![
            ("ship_street1".to_string(), string("1 Main St")),
            ("ship_street2".to_string(), string("")),
            ("ship_city".to_string(), string("Springfield")),
            ("ship_state".to_string(), string("CA")),
            ("ship_zip".to_string(), string("12345-6789")),
        ]
    );
}

#[test]
fn required_address_block_fails_on_its_required_fields() {
    let mut form = Form::builder().block(AddressBlock::new("ship").required()).unwrap().build();
    form.handle_input(key(KeyCode::Tab));
    submit(&mut form);
    assert_eq!(
        form.validation_errors(),
        &[
            failure("ship_street1", "Street Address is required"),
            failure("ship_city", "City is required"),
            failure("ship_state", "State is required"),
            failure("ship_zip", "ZIP Code is required"),
        ]
    );
    assert_eq!(focus(&form), Some(0));
    assert_eq!(form.error_summary(), Some("4 validation errors".to_string()));
}

#[test]
fn optional_address_block_submits_empty() {
    let mut form = Form::builder().block(AddressBlock::new("home")).unwrap().build();
    submit(&mut form);
    assert_eq!(form.result(), &FormResult::Submitted);
    assert_eq!(
        members(&form.to_json()),
        vec![
            ("home_street1".to_string(), string("")),
            ("home_street2".to_string(), string("")),
            ("home_city".to_string(), string("")),
            ("home_state".to_string(), Value::Null),
            ("home_zip".to_string(), string("")),
        ]
    );
}

#[test]
fn blocks_are_absorbed_where_they_are_declared() {
    let form = Form::builder()
        .text("first", "First")
        .done()
        .block(ContactBlock::new("c"))
        .unwrap()
        .checkbox("last", "Last")
        .done()
        .build();
    let ids: Vec<&str> = form.fields().iter().map(|f| f.id()).collect();
    assert_eq!(ids, vec!["first", "c_name", "c_email", "c_phone", "last"]);
}

#[test]
fn to_json_exports_each_kind_of_value() {
    let form = Form::builder()
        .text("name", "Name")
        .initial_value("Ann")
        .done()
        .select("color", "Color")
        .option("r", "Red")
        .option("g", "Green")
        .initial_value("g")
        .done()
        .select("size", "Size")
        .option("s", "Small")
        .done()
        .checkbox("news", "News")
        .checked(true)
        .done()
        .field(FormField::DateRange(tform::DateRangeField::new("trip", false).unwrap()))
        .build();
    assert_eq!(
        members(&form.to_json()),
        vec![
            ("name".to_string(), string("Ann")),
            ("color".to_string(), string("g")),
            ("size".to_string(), Value::Null),
            ("news".to_string(), Value::Bool(true)),
            (
                "trip".to_string(),
                object(vec![("start", string("")), ("end", string(""))])
            ),
        ]
    );
}

#[test]
fn to_json_keeps_keys_unique() {
    let form = Form::builder()
        .text("a", "A")
        .initial_value("first")
        .done()
        .text("b", "B")
        .initial_value("middle")
        .done()
        .text("a", "A again")
        .initial_value("last")
        .done()
        .build();
    assert_eq!(
        members(&form.to_json()),
        vec![
            ("a".to_string(), string("last")),
            ("b".to_string(), string("middle")),
        ]
    );
}

#[test]
fn empty_form_submits_to_an_empty_object() {
    let mut form = Form::builder().build();
    assert_eq!(focus(&form), Some(0));
    type_text(&mut form, "ignored");
    form.handle_input(key(KeyCode::Tab));
    assert_eq!(focus(&form), None);
    form.handle_input(key(KeyCode::Enter));
    assert_eq!(form.result(), &FormResult::Submitted);
    assert_eq!(members(&form.to_json()), Vec::new());
}

#[test]
fn builder_keeps_title_style_and_prebuilt_fields() {
    let form = FormBuilder::default()
        .title("T")
        .style(FormStyle::light())
        .field(FormField::Text(TextInput::new("t", "Text")))
        .field(FormField::Select(Select::new("s", "Select")))
        .field(FormField::Checkbox(Checkbox::new("c", "Check")))
        .build();
    assert_eq!(form.title(), Some("T"));
    assert_eq!(form.style(), &FormStyle::light());
    let labels: Vec<&str> = form.fields().iter().map(|f| f.label()).collect();
    assert_eq!(labels, vec!["Text", "Select", "Check"]);
    assert_eq!(FormBuilder::new().build().title(), None);
}

#[test]
fn field_builders_pass_their_settings_on() {
    let form = Form::builder()
        .text("t", "T")
        .placeholder("hint")
        .required()
        .initial_value("abc")
        .validator(Rule::Email(Email))
        .done()
        .select("s", "S")
        .options(vec![("a".to_string(), "A".to_string()), ("b".to_string(), "B".to_string())])
        .option("c", "C")
        .required()
        .initial_value("b")
        .done()
        .checkbox("c", "C")
        .checked(true)
        .required()
        .done()
        .build();
    match &form.fields()[0] {
        FormField::Text(t) => {
            assert_eq!(t.placeholder_text(), Some("hint"));
            assert!(t.is_required());
            assert_eq!(t.text(), "abc");
            assert_eq!(t.validate(), Err(vec![failure("t", "Invalid email address")]));
        }
        _ => panic!("the first field is a text input"),
    }
    match &form.fields()[1] {
        FormField::Select(s) => {
            assert_eq!(s.option_list().len(), 3);
            assert!(s.is_required());
            assert_eq!(s.selected_index(), Some(1));
        }
        _ => panic!("the second field is a select"),
    }
    match &form.fields()[2] {
        FormField::Checkbox(c) => {
            assert!(c.is_checked());
            assert!(c.is_required());
        }
        _ => panic!("the third field is a checkbox"),
    }
}

#[test]
fn submit_label_shows_the_focus() {
    let mut form = name_and_email();
    assert_eq!(form.submit_label(), "  Submit  ");
    go_to_submit(&mut form);
    assert_eq!(form.submit_label(), "[ Submit ]");
}

#[test]
fn direct_calls_submit_and_delegate() {
    let mut form = name_and_email();
    assert!(form.delegate_to_focused_field(&key(KeyCode::Char('x'))));
    assert!(!form.delegate_to_focused_field(&key(KeyCode::Up)));
    assert_eq!(text_of(&form, 0), "x");
    form.try_submit();
    assert!(form.is_active());
    assert_eq!(focus(&form), Some(1));
    assert_eq!(form.validation_errors(), &[failure("email", "Email is required")]);
}

#[test]
fn a_cancelled_form_cannot_be_submitted() {
    let mut form = Form::builder().build();
    form.handle_input(key(KeyCode::Esc));
    form.try_submit();
    assert_eq!(form.result(), &FormResult::Cancelled);
    assert!(form.validation_errors().is_empty());
}

#[test]
fn a_submitted_form_keeps_its_state_on_a_second_submit() {
    let mut form = Form::builder().checkbox("c", "C").done().build();
    submit(&mut form);
    assert_eq!(form.result(), &FormResult::Submitted);
    form.try_submit();
    assert_eq!(form.result(), &FormResult::Submitted);
    assert_eq!(focus(&form), None);
}

#[test]
fn a_terminal_form_hands_no_key_to_a_field() {
    let mut form = name_and_email();
    type_text(&mut form, "Ann");
    form.handle_input(key(KeyCode::Esc));
    assert!(!form.delegate_to_focused_field(&key(KeyCode::Char('x'))));
    assert_eq!(text_of(&form, 0), "Ann");
}
