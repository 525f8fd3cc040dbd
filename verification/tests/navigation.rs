use tform::FocusManager;

fn position(fm: &FocusManager) -> Option<usize> {
    if fm.is_submit_focused() {
        None
    } else {
        Some(fm.current_index())
    }
}

#[test]
fn focus_next_cycles_through_three_fields_and_submit() {
    let mut fm = FocusManager::new(3);
    assert_eq!(position(&fm), Some(0));
    fm.focus_next();
    assert_eq!(position(&fm), Some(1));
    fm.focus_next();
    assert_eq!(position(&fm), Some(2));
    fm.focus_next();
    assert_eq!(position(&fm), None);
    fm.focus_next();
    assert_eq!(position(&fm), Some(0));
}

#[test]
fn focus_previous_is_the_reverse_cycle() {
    let mut fm = FocusManager::new(3);
    fm.focus_previous();
    assert_eq!(position(&fm), None);
    fm.focus_previous();
    assert_eq!(position(&fm), Some(2));
    fm.focus_previous();
    assert_eq!(position(&fm), Some(1));
    fm.focus_previous();
    assert_eq!(position(&fm), Some(0));
}

#[test]
fn full_cycle_returns_from_every_slot() {
    for count in 1..6usize {
        for start in 0..=count {
            let mut fm = FocusManager::new(count);
            for _ in 0..start {
                fm.focus_next();
            }
            let before = position(&fm);
            for _ in 0..count + 1 {
                fm.focus_next();
            }
            assert_eq!(position(&fm), before);
            for _ in 0..count + 1 {
                fm.focus_previous();
            }
            assert_eq!(position(&fm), before);
        }
    }
}

#[test]
fn next_then_previous_returns_to_the_same_slot() {
    for count in 0..5usize {
        for start in 0..=count {
            let mut fm = FocusManager::new(count);
            for _ in 0..start {
                fm.focus_next();
            }
            let before = position(&fm);
            fm.focus_next();
            fm.focus_previous();
            assert_eq!(position(&fm), before);
            fm.focus_previous();
            fm.focus_next();
            assert_eq!(position(&fm), before);
        }
    }
}

#[test]
fn focus_field_jumps_within_range() {
    let mut fm = FocusManager::new(4);
    fm.focus_submit();
    assert!(fm.is_submit_focused());
    fm.focus_field(2);
    assert!(!fm.is_submit_focused());
    assert_eq!(fm.current_index(), 2);
}

#[test]
fn focus_field_out_of_range_is_ignored() {
    let mut fm = FocusManager::new(3);
    fm.focus_field(1);
    fm.focus_field(3);
    assert_eq!(fm.current_index(), 1);
    assert!(!fm.is_submit_focused());
    fm.focus_submit();
    fm.focus_field(usize::MAX);
    assert_eq!(fm.current_index(), 1);
    assert!(fm.is_submit_focused());
}

#[test]
fn set_field_count_clamps_the_index() {
    let mut fm = FocusManager::new(5);
    fm.focus_field(4);
    fm.set_field_count(2);
    assert_eq!(fm.field_count(), 2);
    assert_eq!(fm.current_index(), 1);
    fm.set_field_count(0);
    assert_eq!(fm.current_index(), 0);
    fm.set_field_count(7);
    assert_eq!(fm.current_index(), 0);
    assert_eq!(fm.field_count(), 7);
}

#[test]
fn set_field_count_keeps_an_index_in_range() {
    let mut fm = FocusManager::new(5);
    fm.focus_field(1);
    fm.set_field_count(3);
    assert_eq!(fm.current_index(), 1);
}

#[test]
fn empty_cycle_alternates_with_submit() {
    let mut fm = FocusManager::new(0);
    assert_eq!(position(&fm), Some(0));
    fm.focus_next();
    assert_eq!(position(&fm), None);
    fm.focus_next();
    assert_eq!(position(&fm), Some(0));
    fm.focus_previous();
    assert_eq!(position(&fm), None);
    fm.focus_previous();
    assert_eq!(position(&fm), Some(0));
}

#[test]
fn submit_keeps_the_last_field_index() {
    let mut fm = FocusManager::new(2);
    fm.focus_next();
    fm.focus_next();
    assert!(fm.is_submit_focused());
    assert_eq!(fm.current_index(), 1);
}
