use tform::layout::{centered_offset, dropdown_rows, row_heights, split_row};
use tform::{Checkbox, DateRangeField, Field, FormField, KeyCode, KeyEvent, Select, TextInput};

#[test]
fn split_row_gives_the_caption_what_it_takes() {
    assert_eq!(split_row(6, 40), (6, 34));
    assert_eq!(split_row(0, 40), (0, 40));
    assert_eq!(split_row(40, 40), (40, 0));
    assert_eq!(split_row(41, 40), (40, 0));
    assert_eq!(split_row(usize::MAX, u16::MAX), (u16::MAX, 0));
    assert_eq!(split_row(5, 0), (0, 0));
}

#[test]
fn dropdown_rows_leave_one_row_for_the_select() {
    assert_eq!(dropdown_rows(0, 5), 0);
    assert_eq!(dropdown_rows(1, 5), 0);
    assert_eq!(dropdown_rows(4, 5), 3);
    assert_eq!(dropdown_rows(6, 5), 5);
    assert_eq!(dropdown_rows(20, 5), 5);
    assert_eq!(dropdown_rows(20, 0), 0);
    assert_eq!(dropdown_rows(u16::MAX, usize::MAX), u16::MAX - 1);
}

#[test]
fn centered_offset_halves_the_free_space() {
    assert_eq!(centered_offset(30, 10), 10);
    assert_eq!(centered_offset(31, 10), 10);
    assert_eq!(centered_offset(10, 10), 0);
    assert_eq!(centered_offset(9, 10), 0);
    assert_eq!(centered_offset(0, 0), 0);
}

#[test]
fn row_heights_follow_the_fields() {
    let mut open = Select::new("s", "S").option("a", "A").option("b", "B");
    open.handle_input(&KeyEvent::plain(KeyCode::Enter));
    let fields = vec![
        FormField::Text(TextInput::new("t", "T")),
        FormField::Select(open),
        FormField::Select(Select::new("c", "C").option("a", "A")),
        FormField::Checkbox(Checkbox::new("b", "B")),
        FormField::DateRange(DateRangeField::new("d", false).unwrap()),
    ];
    assert_eq!(row_heights(&fields), vec![1, 3, 1, 1, 2, 1, 1]);
    assert_eq!(row_heights(&Vec::new()), vec![1, 1]);
}
