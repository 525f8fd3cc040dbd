//! Checkbox field.

use crate::event::{KeyCode, KeyEvent};
use crate::field::Field;
use crate::strings::{caption_of, joined, make_caption};
use crate::validation::{Failure, ValidationError};
use crate::value::{bool_value, ValueTree};
use vstd::prelude::*;

verus! {

/// The state of a checkbox.
pub struct CheckboxState {
    pub id: Seq<char>,
    pub label: Seq<char>,
    pub checked: bool,
    pub required: bool,
}

impl CheckboxState {
    /// Whether the checkbox takes the key: Enter and the space bar toggle it.
    pub open spec fn consumes(self, event: KeyEvent) -> bool {
        event.code == KeyCode::Enter || event.code == KeyCode::Char(' ')
    }

    /// The state after the key.
    pub open spec fn apply(self, event: KeyEvent) -> CheckboxState {
        if self.consumes(event) {
            CheckboxState { checked: !self.checked, ..self }
        } else {
            self
        }
    }

    /// A required checkbox that is not checked fails.
    pub open spec fn failures(self) -> Seq<Failure> {
        if self.required && !self.checked {
            seq![Failure { field_id: self.id, message: self.label + " must be checked"@ }]
        } else {
            Seq::empty()
        }
    }
}

/// A checkbox field.
pub struct Checkbox {
    id: String,
    label: String,
    checked: bool,
    required: bool,
}

impl View for Checkbox {
    type V = CheckboxState;

    closed spec fn view(&self) -> CheckboxState {
        CheckboxState {
            id: self.id@,
            label: self.label@,
            checked: self.checked,
            required: self.required,
        }
    }
}

impl Checkbox {
    /// Creates a new checkbox field.
    pub fn new(id: &str, label: &str) -> (c: Self)
        ensures
            c@ == (CheckboxState { id: id@, label: label@, checked: false, required: false }),
    {
        Self {
            id: String::from_str(id),
            label: String::from_str(label),
            checked: false,
            required: false,
        }
    }

    /// Sets the initial checked state.
    pub fn checked(self, checked: bool) -> (c: Self)
        ensures
            c@ == (CheckboxState { checked, ..self@ }),
    {
        let mut c = self;
        c.checked = checked;
        c
    }

    /// Marks this field as required (must be checked).
    pub fn required(self) -> (c: Self)
        ensures
            c@ == (CheckboxState { required: true, ..self@ }),
    {
        let mut c = self;
        c.required = true;
        c
    }

    /// The label as it is shown behind the box: a space, the label, and a
    /// star where the checkbox is required.
    pub fn caption(&self) -> (caption: String)
        ensures
            caption@ == " "@ + caption_of(self@.label, self@.required, ""@),
    {
        let rest = make_caption(self.label.as_str(), self.required, "");
        joined(" ", rest.as_str())
    }

    /// Returns whether the box is checked.
    pub fn is_checked(&self) -> (b: bool)
        ensures
            b == self@.checked,
    {
        self.checked
    }

    /// Flips the box.
    pub fn toggle(&mut self)
        ensures
            final(self)@ == (CheckboxState { checked: !old(self)@.checked, ..old(self)@ }),
    {
        self.checked = !self.checked;
    }
}

impl Field for Checkbox {
    open spec fn wf(&self) -> bool {
        true
    }

    open spec fn id_text(&self) -> Seq<char> {
        self@.id
    }

    open spec fn label_text(&self) -> Seq<char> {
        self@.label
    }

    open spec fn required_flag(&self) -> bool {
        self@.required
    }

    open spec fn rows(&self) -> nat {
        1
    }

    open spec fn value_tree(&self) -> ValueTree {
        ValueTree::Bool(self@.checked)
    }

    open spec fn failures(&self) -> Seq<Failure> {
        self@.failures()
    }

    fn id(&self) -> (r: &str) {
        self.id.as_str()
    }

    fn label(&self) -> (r: &str) {
        self.label.as_str()
    }

    fn handle_input(&mut self, event: &KeyEvent) -> (consumed: bool)
        ensures
            final(self)@ == old(self)@.apply(*event),
            consumed == old(self)@.consumes(*event),
    {
        match event.code {
            KeyCode::Enter => {
                self.toggle();
                true
            },
            KeyCode::Char(c) => {
                if c == ' ' {
                    self.toggle();
                    true
                } else {
                    false
                }
            },
            _ => false,
        }
    }

    fn value(&self) -> (v: serde_json::Value) {
        bool_value(self.checked)
    }

    fn validate(&self) -> (r: Result<(), Vec<ValidationError>>) {
        if self.required && !self.checked {
            let mut errors: Vec<ValidationError> = Vec::new();
            errors.push(
                ValidationError {
                    field_id: self.id.clone(),
                    message: joined(self.label.as_str(), " must be checked"),
                },
            );
            assert(errors@.map_values(|e: ValidationError| e@) =~= self@.failures());
            Err(errors)
        } else {
            Ok(())
        }
    }

    fn height(&self) -> (h: u16) {
        1
    }

    fn is_required(&self) -> (b: bool) {
        self.required
    }
}

} // verus!
