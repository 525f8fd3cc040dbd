use tform::{
    Block, DateRangeBlock, DateRangeField, Field, FormField, KeyCode, KeyEvent, ValidationError,
};
use serde_json::Value;

fn type_text(field: &mut DateRangeField, text: &str) {
    for c in text.chars() {
        assert!(field.handle_input(&KeyEvent::plain(KeyCode::Char(c))));
    }
}

fn range(start: &str, end: &str) -> DateRangeField {
    let mut f = DateRangeField::new("trip", false).unwrap();
    f.set_focused_side(0);
    type_text(&mut f, start);
    f.set_focused_side(1);
    type_text(&mut f, end);
    f
}

/// The members of an object, in their order.
fn members(value: &Value) -> Vec<(String, Value)> {
    match value {
        Value::Object(map) => map.iter().map(|(k, v)| (k.clone(), v.clone())).collect(),
        _ => panic!("no object"),
    }
}

fn failure(id: &str, message: &str) -> ValidationError {
    ValidationError { field_id: id.to_string(), message: message.to_string() }
}

#[test]
fn new_date_range_field() {
    let f = DateRangeField::new("trip", true).unwrap();
    assert_eq!(f.id(), "trip");
    assert_eq!(f.label(), "Date Range");
    assert_eq!(f.height(), 2);
    assert!(!f.is_required());
    assert_eq!(f.focused_side(), 0);
    assert_eq!(f.start().id(), "trip_start");
    assert_eq!(f.start().label(), "Start Date");
    assert_eq!(f.start().placeholder_text(), Some("YYYY-MM-DD"));
    assert!(f.start().is_required());
    assert_eq!(f.end().id(), "trip_end");
    assert_eq!(f.end().label(), "End Date");
    assert!(f.end().is_required());
}

#[test]
fn reversed_range_is_one_error_at_the_end_field() {
    let f = range("2024-02-01", "2024-01-01");
    assert_eq!(f.start().validate(), Ok(()));
    assert_eq!(f.end().validate(), Ok(()));
    assert_eq!(
        f.validate(),
        Err(vec![failure("trip_end", "End date must be on or after start date")])
    );
}

#[test]
fn range_with_an_empty_end_is_incomplete_not_invalid() {
    let f = range("2024-01-01", "");
    assert_eq!(f.validate_range(), Ok(()));
    assert_eq!(f.validate(), Ok(()));
}

#[test]
fn range_with_an_empty_start_is_incomplete_not_invalid() {
    let f = range("", "2024-01-01");
    assert_eq!(f.validate_range(), Ok(()));
    assert_eq!(f.validate(), Ok(()));
}

#[test]
fn ordered_and_equal_ranges_pass() {
    assert_eq!(range("2024-01-01", "2024-02-01").validate(), Ok(()));
    assert_eq!(range("2024-01-01", "2024-01-01").validate(), Ok(()));
    assert_eq!(range("2023-12-31", "2024-01-01").validate(), Ok(()));
}

#[test]
fn range_errors_follow_those_of_the_sides() {
    let f = range("zz", "aa");
    assert_eq!(
        f.validate(),
        Err(vec![
            failure("trip_start", "Invalid date format (use YYYY-MM-DD)"),
            failure("trip_end", "Invalid date format (use YYYY-MM-DD)"),
            failure("trip_end", "End date must be on or after start date"),
        ])
    );
}

#[test]
fn required_sides_fail_when_empty() {
    let f = DateRangeField::new("trip", true).unwrap();
    assert_eq!(
        f.validate(),
        Err(vec![
            failure("trip_start", "Start Date is required"),
            failure("trip_end", "End Date is required"),
        ])
    );
}

#[test]
fn keys_go_to_the_focused_side() {
    let mut f = DateRangeField::new("d", false).unwrap();
    type_text(&mut f, "ab");
    assert_eq!((f.start().text(), f.end().text()), ("ab", ""));
    f.set_focused_side(1);
    type_text(&mut f, "cd");
    assert_eq!((f.start().text(), f.end().text()), ("ab", "cd"));
    f.set_focused_side(7);
    assert!(f.handle_input(&KeyEvent::plain(KeyCode::Backspace)));
    assert_eq!((f.start().text(), f.end().text()), ("ab", "c"));
    assert!(!f.handle_input(&KeyEvent::plain(KeyCode::Up)));
}

#[test]
fn date_range_value_is_an_object_of_both_dates() {
    let f = range("2024-01-01", "2024-01-02");
    assert_eq!(
        members(&f.value()),
        vec![
            ("start".to_string(), Value::String("2024-01-01".to_string())),
            ("end".to_string(), Value::String("2024-01-02".to_string())),
        ]
    );
}

#[test]
fn date_range_block_makes_two_date_inputs() {
    let block = DateRangeBlock::new("stay").title("Stay").required();
    assert_eq!(block.prefix(), "stay");
    assert_eq!(Block::title(&block), Some("Stay"));
    let fields = block.fields().unwrap();
    assert_eq!(fields.len(), 2);
    let expected = [("stay_start", "Start Date"), ("stay_end", "End Date")];
    for (field, (id, label)) in fields.iter().zip(expected) {
        match field {
            FormField::Text(t) => {
                assert_eq!(t.id(), id);
                assert_eq!(t.label(), label);
                assert_eq!(t.placeholder_text(), Some("YYYY-MM-DD"));
                assert!(t.is_required());
                assert_eq!(t.text(), "");
            }
            _ => panic!("a date field is a text input"),
        }
    }
}

#[test]
fn date_range_block_fields_check_the_date_format() {
    let fields = DateRangeBlock::new("stay").fields().unwrap();
    let mut fields = fields;
    for c in "2024-13".chars() {
        fields[0].handle_input(&KeyEvent::plain(KeyCode::Char(c)));
    }
    assert_eq!(
        fields[0].validate(),
        Err(vec![failure("stay_start", "Invalid date format (use YYYY-MM-DD)")])
    );
    assert_eq!(fields[1].validate(), Ok(()));
    assert_eq!(DateRangeBlock::new("stay").field_id("end"), "stay_end");
}
