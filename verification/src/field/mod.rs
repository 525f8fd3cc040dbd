//! Field types for form inputs.

pub mod checkbox;
pub mod select;
pub mod text;

use crate::block::date_range::{DateRangeField, DateRangeState};
use crate::event::KeyEvent;
use crate::field::checkbox::{Checkbox, CheckboxState};
use crate::field::select::{Select, SelectState};
use crate::field::text::{TextInput, TextState};
use crate::validation::{failures_of, Failure, ValidationError};
use crate::value::{tree_of, ValueTree};
use vstd::prelude::*;

verus! {

/// What every form field offers, whatever its kind.
pub trait Field: Send + Sync {
    /// The invariant of the field. Constructors establish it and every method
    /// keeps it.
    spec fn wf(&self) -> bool;

    /// The identifier of the field.
    spec fn id_text(&self) -> Seq<char>;

    /// The display label of the field.
    spec fn label_text(&self) -> Seq<char>;

    /// Whether the field asks for a value.
    spec fn required_flag(&self) -> bool;

    /// The number of display rows that the field takes.
    spec fn rows(&self) -> nat;

    /// The value that the field holds.
    spec fn value_tree(&self) -> ValueTree;

    /// What is wrong with the field as it stands, in order.
    spec fn failures(&self) -> Seq<Failure>;

    /// Returns the unique identifier for this field.
    fn id(&self) -> (r: &str)
        ensures
            r@ == self.id_text(),
    ;

    /// Returns the display label for this field.
    fn label(&self) -> (r: &str)
        ensures
            r@ == self.label_text(),
    ;

    /// Handles keyboard input. Returns true if the input was consumed.
    fn handle_input(&mut self, event: &KeyEvent) -> (consumed: bool)
        requires
            old(self).wf(),
        ensures
            final(self).wf(),
            final(self).id_text() == old(self).id_text(),
            final(self).label_text() == old(self).label_text(),
            final(self).required_flag() == old(self).required_flag(),
    ;

    /// Returns the current value.
    fn value(&self) -> (v: serde_json::Value)
        requires
            self.wf(),
        ensures
            tree_of(v) == self.value_tree(),
    ;

    /// Validates the field: `Ok` when nothing is wrong with it, else every
    /// failure, in order.
    fn validate(&self) -> (r: Result<(), Vec<ValidationError>>)
        requires
            self.wf(),
        ensures
            match r {
                Ok(_) => self.failures().len() == 0,
                Err(errors) => errors.len() > 0 && failures_of(errors@) == self.failures(),
            },
    ;

    /// Returns the height needed to render this field.
    fn height(&self) -> (h: u16)
        requires
            self.wf(),
        ensures
            h == self.rows(),
    ;

    /// Returns whether this field is required.
    fn is_required(&self) -> (b: bool)
        ensures
            b == self.required_flag(),
    ;
}

/// A field of one of the kinds that a form can hold.
pub enum FormField {
    Text(TextInput),
    Select(Select),
    Checkbox(Checkbox),
    DateRange(DateRangeField),
}

/// The state of a field of a form.
pub enum FieldState {
    Text(TextState),
    Select(SelectState),
    Checkbox(CheckboxState),
    DateRange(DateRangeState),
}

impl FieldState {
    /// The identifier of the field.
    pub open spec fn id(self) -> Seq<char> {
        match self {
            FieldState::Text(s) => s.id,
            FieldState::Select(s) => s.id,
            FieldState::Checkbox(s) => s.id,
            FieldState::DateRange(s) => s.prefix,
        }
    }

    /// Whether the field takes the key.
    pub open spec fn consumes(self, event: KeyEvent) -> bool {
        match self {
            FieldState::Text(s) => s.consumes(event),
            FieldState::Select(s) => s.consumes(event),
            FieldState::Checkbox(s) => s.consumes(event),
            FieldState::DateRange(s) => s.consumes(event),
        }
    }

    /// The state after the key.
    pub open spec fn apply(self, event: KeyEvent) -> FieldState {
        match self {
            FieldState::Text(s) => FieldState::Text(s.apply(event)),
            FieldState::Select(s) => FieldState::Select(s.apply(event)),
            FieldState::Checkbox(s) => FieldState::Checkbox(s.apply(event)),
            FieldState::DateRange(s) => FieldState::DateRange(s.apply(event)),
        }
    }

    /// The value that the field holds.
    pub open spec fn value(self) -> ValueTree {
        match self {
            FieldState::Text(s) => ValueTree::String(s.text),
            FieldState::Select(s) => s.value(),
            FieldState::Checkbox(s) => ValueTree::Bool(s.checked),
            FieldState::DateRange(s) => s.value(),
        }
    }

    /// What is wrong with the field as it stands, in order.
    pub open spec fn failures(self) -> Seq<Failure> {
        match self {
            FieldState::Text(s) => s.failures(),
            FieldState::Select(s) => s.failures(),
            FieldState::Checkbox(s) => s.failures(),
            FieldState::DateRange(s) => s.failures(),
        }
    }
}

impl View for FormField {
    type V = FieldState;

    open spec fn view(&self) -> FieldState {
        match self {
            FormField::Text(f) => FieldState::Text(f@),
            FormField::Select(f) => FieldState::Select(f@),
            FormField::Checkbox(f) => FieldState::Checkbox(f@),
            FormField::DateRange(f) => FieldState::DateRange(f@),
        }
    }
}

impl Field for FormField {
    open spec fn wf(&self) -> bool {
        match self {
            FormField::Text(f) => f.wf(),
            FormField::Select(f) => f.wf(),
            FormField::Checkbox(f) => f.wf(),
            FormField::DateRange(f) => f.wf(),
        }
    }

    open spec fn id_text(&self) -> Seq<char> {
        self@.id()
    }

    open spec fn label_text(&self) -> Seq<char> {
        match self {
            FormField::Text(f) => f.label_text(),
            FormField::Select(f) => f.label_text(),
            FormField::Checkbox(f) => f.label_text(),
            FormField::DateRange(f) => f.label_text(),
        }
    }

    open spec fn required_flag(&self) -> bool {
        match self {
            FormField::Text(f) => f.required_flag(),
            FormField::Select(f) => f.required_flag(),
            FormField::Checkbox(f) => f.required_flag(),
            FormField::DateRange(f) => f.required_flag(),
        }
    }

    open spec fn rows(&self) -> nat {
        match self {
            FormField::Text(f) => f.rows(),
            FormField::Select(f) => f.rows(),
            FormField::Checkbox(f) => f.rows(),
            FormField::DateRange(f) => f.rows(),
        }
    }

    open spec fn value_tree(&self) -> ValueTree {
        self@.value()
    }

    open spec fn failures(&self) -> Seq<Failure> {
        self@.failures()
    }

    fn id(&self) -> (r: &str) {
        match self {
            FormField::Text(f) => f.id(),
            FormField::Select(f) => f.id(),
            FormField::Checkbox(f) => f.id(),
            FormField::DateRange(f) => f.id(),
        }
    }

    fn label(&self) -> (r: &str) {
        match self {
            FormField::Text(f) => f.label(),
            FormField::Select(f) => f.label(),
            FormField::Checkbox(f) => f.label(),
            FormField::DateRange(f) => f.label(),
        }
    }

    fn handle_input(&mut self, event: &KeyEvent) -> (consumed: bool)
        ensures
            final(self)@ == old(self)@.apply(*event),
            consumed == old(self)@.consumes(*event),
    {
        match self {
            FormField::Text(f) => f.handle_input(event),
            FormField::Select(f) => f.handle_input(event),
            FormField::Checkbox(f) => f.handle_input(event),
            FormField::DateRange(f) => f.handle_input(event),
        }
    }

    fn value(&self) -> (v: serde_json::Value) {
        match self {
            FormField::Text(f) => f.value(),
            FormField::Select(f) => f.value(),
            FormField::Checkbox(f) => f.value(),
            FormField::DateRange(f) => f.value(),
        }
    }

    fn validate(&self) -> (r: Result<(), Vec<ValidationError>>) {
        match self {
            FormField::Text(f) => f.validate(),
            FormField::Select(f) => f.validate(),
            FormField::Checkbox(f) => f.validate(),
            FormField::DateRange(f) => f.validate(),
        }
    }

    fn height(&self) -> (h: u16) {
        match self {
            FormField::Text(f) => f.height(),
            FormField::Select(f) => f.height(),
            FormField::Checkbox(f) => f.height(),
            FormField::DateRange(f) => f.height(),
        }
    }

    fn is_required(&self) -> (b: bool) {
        match self {
            FormField::Text(f) => f.is_required(),
            FormField::Select(f) => f.is_required(),
            FormField::Checkbox(f) => f.is_required(),
            FormField::DateRange(f) => f.is_required(),
        }
    }
}

/// A key that a field does not take leaves the field as it was.
pub proof fn lemma_declined_key_changes_nothing(s: FieldState, event: KeyEvent)
    requires
        !s.consumes(event),
    ensures
        s.apply(event) == s,
{
}

/// Every field of the list meets its invariant.
pub open spec fn all_wf(fields: Seq<FormField>) -> bool {
    forall|i: int| 0 <= i < fields.len() ==> (#[trigger] fields[i]).wf()
}

/// The states of the fields of a list.
pub open spec fn states_of(fields: Seq<FormField>) -> Seq<FieldState> {
    fields.map_values(|f: FormField| f@)
}

} // verus!
