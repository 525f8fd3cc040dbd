//! Form and FormBuilder implementation.

use crate::block::Block;
use crate::event::{KeyCode, KeyEvent};
use crate::field::checkbox::{Checkbox, CheckboxState};
use crate::field::select::{options_of, Select, SelectState};
use crate::field::text::{TextInput, TextState};
use crate::field::{
    all_wf, lemma_declined_key_changes_nothing, states_of, Field, FieldState, FormField,
};
use crate::navigation::{FocusManager, FocusState};
use crate::strings::{decimal, decimal_digits, joined};
use crate::style::FormStyle;
use crate::validation::rules::{PatternError, Rule};
use crate::validation::{failures_of, Failure, ValidationError};
use crate::value::{
    first_from, has_key, insert_member, key_index, lemma_first_from, lemma_first_from_is_first,
    map_insert, members_of, new_map, object_value, tree_of, ValueTree,
};
use vstd::prelude::*;

verus! {

/// Result of form submission.
#[derive(Debug, Clone, Copy, PartialEq, Eq, Structural)]
pub enum FormResult {
    /// Form was submitted successfully.
    Submitted,
    /// Form was cancelled.
    Cancelled,
    /// Form is still active.
    Active,
}

/// The failures of all the fields, in the order of the fields.
pub open spec fn all_failures(fields: Seq<FieldState>) -> Seq<Failure>
    decreases fields.len(),
{
    if fields.len() == 0 {
        Seq::empty()
    } else {
        all_failures(fields.drop_last()) + fields.last().failures()
    }
}

/// The positions of the fields that fail.
pub open spec fn fails_at(fields: Seq<FieldState>) -> spec_fn(int) -> bool {
    |i: int| fields[i].failures().len() > 0
}

/// The position of the first field that fails, or the number of fields where
/// none does.
pub open spec fn first_failing(fields: Seq<FieldState>) -> int {
    first_from(fails_at(fields), 0, fields.len() as int)
}

/// The members that a list of fields exports: the value of each field under
/// its id, in the order of the fields.
pub open spec fn export(fields: Seq<FieldState>) -> Seq<(Seq<char>, ValueTree)>
    decreases fields.len(),
{
    if fields.len() == 0 {
        Seq::empty()
    } else {
        insert_member(export(fields.drop_last()), fields.last().id(), fields.last().value())
    }
}

/// The state of a form.
pub struct FormState {
    pub title: Option<Seq<char>>,
    pub fields: Seq<FieldState>,
    pub focus: FocusState,
    pub style: FormStyle,
    pub result: FormResult,
    /// The failures of the last attempt to submit.
    pub errors: Seq<Failure>,
}

impl FormState {
    /// The focus cycle has one slot for each field, and is itself valid.
    pub open spec fn valid(self) -> bool {
        self.focus.valid() && self.focus.count == self.fields.len()
    }

    /// Whether a field has the focus and the form is active, so that a key
    /// can reach the field.
    pub open spec fn field_in_reach(self) -> bool {
        &&& self.result == FormResult::Active
        &&& !self.focus.submit
        &&& self.focus.index < self.fields.len()
    }

    /// Whether the focused field takes the key. Nothing takes it while the
    /// submit action has the focus, or once the form is submitted or
    /// cancelled.
    pub open spec fn delegated_consumes(self, event: KeyEvent) -> bool {
        self.field_in_reach() && self.fields[self.focus.index as int].consumes(event)
    }

    /// The state after the key went to the focused field. The key is
    /// discarded while the submit action has the focus, and once the form is
    /// submitted or cancelled.
    pub open spec fn delegate(self, event: KeyEvent) -> FormState {
        if self.field_in_reach() {
            FormState {
                fields: self.fields.update(
                    self.focus.index as int,
                    self.fields[self.focus.index as int].apply(event),
                ),
                ..self
            }
        } else {
            self
        }
    }

    /// The state after an attempt to submit an active form: submitted where
    /// no field fails; else still active, with the failures of all fields
    /// stored and the focus on the first field that fails. A form that was
    /// submitted or cancelled stays as it is.
    pub open spec fn submit(self) -> FormState {
        let errors = all_failures(self.fields);
        if self.result != FormResult::Active {
            self
        } else if errors.len() == 0 {
            FormState { result: FormResult::Submitted, errors, ..self }
        } else {
            FormState {
                errors,
                focus: self.focus.jump(first_failing(self.fields) as nat),
                ..self
            }
        }
    }

    /// The state after the key. A form that was submitted or cancelled stays
    /// as it is.
    pub open spec fn apply(self, event: KeyEvent) -> FormState {
        if self.result != FormResult::Active {
            self
        } else {
            match event.code {
                KeyCode::Esc => FormState { result: FormResult::Cancelled, ..self },
                KeyCode::Tab => if event.modifiers.shift {
                    FormState { focus: self.focus.previous(), ..self }
                } else {
                    FormState { focus: self.focus.next(), ..self }
                },
                KeyCode::Enter => if self.focus.submit {
                    self.submit()
                } else {
                    self.delegate(event)
                },
                KeyCode::Down => if self.delegated_consumes(event) {
                    self.delegate(event)
                } else {
                    FormState { focus: self.focus.next(), ..self }
                },
                KeyCode::Up => if self.delegated_consumes(event) {
                    self.delegate(event)
                } else {
                    FormState { focus: self.focus.previous(), ..self }
                },
                _ => self.delegate(event),
            }
        }
    }

    /// A key that the focused field does not take leaves the fields as they
    /// were.
    pub proof fn lemma_declined_key_changes_nothing(self, event: KeyEvent)
        requires
            !self.delegated_consumes(event),
        ensures
            self.delegate(event) == self,
    {
        if self.field_in_reach() {
            let i = self.focus.index as int;
            lemma_declined_key_changes_nothing(self.fields[i], event);
            assert(self.fields.update(i, self.fields[i]) =~= self.fields);
        }
    }

    /// The state after a sequence of keys.
    pub open spec fn run(self, events: Seq<KeyEvent>) -> FormState
        decreases events.len(),
    {
        if events.len() == 0 {
            self
        } else {
            self.run(events.drop_last()).apply(events.last())
        }
    }

    /// The line that sums up the errors, where there are any.
    pub open spec fn error_summary(self) -> Option<Seq<char>> {
        if self.errors.len() == 0 {
            None
        } else if self.errors.len() == 1 {
            Some("1 validation error"@)
        } else {
            Some(decimal_digits(self.errors.len()) + " validation errors"@)
        }
    }

    /// The value tree of the form: an object with one member for each field.
    pub open spec fn value(self) -> ValueTree {
        ValueTree::Object(export(self.fields))
    }
}

/// The failures of the first `n` fields open the failures of all the fields.
pub proof fn lemma_failures_prefix(fields: Seq<FieldState>, n: int)
    requires
        0 <= n <= fields.len(),
    ensures
        all_failures(fields.take(n)).len() <= all_failures(fields).len(),
        all_failures(fields).take(all_failures(fields.take(n)).len() as int) == all_failures(
            fields.take(n),
        ),
    decreases fields.len() - n,
{
    if n == fields.len() {
        assert(fields.take(n) =~= fields);
        assert(all_failures(fields).take(all_failures(fields).len() as int) =~= all_failures(
            fields,
        ));
    } else {
        lemma_failures_prefix(fields, n + 1);
        assert(fields.take(n + 1).drop_last() =~= fields.take(n));
        let longer = all_failures(fields.take(n + 1));
        let shorter = all_failures(fields.take(n));
        assert(longer == shorter + fields[n].failures());
        assert(all_failures(fields).take(shorter.len() as int) =~= shorter);
    }
}

/// No field fails exactly when the failures of all the fields are none.
pub proof fn lemma_no_failures(fields: Seq<FieldState>)
    ensures
        all_failures(fields).len() == 0 <==> forall|i: int|
            0 <= i < fields.len() ==> (#[trigger] fields[i]).failures().len() == 0,
    decreases fields.len(),
{
    if fields.len() > 0 {
        let front = fields.drop_last();
        lemma_no_failures(front);
        assert forall|i: int| 0 <= i < front.len() implies front[i] == fields[i] by {}
        if all_failures(fields).len() == 0 {
            assert forall|i: int| 0 <= i < fields.len() implies (#[trigger] fields[i]).failures().len()
                == 0 by {
                if i < front.len() {
                    assert(front[i] == fields[i]);
                }
            }
        }
        if forall|i: int| 0 <= i < fields.len() ==> (#[trigger] fields[i]).failures().len() == 0 {
            assert(fields.last() == fields[fields.len() - 1]);
            assert forall|i: int| 0 <= i < front.len() implies (#[trigger] front[i]).failures().len()
                == 0 by {
                assert(front[i] == fields[i]);
            }
        }
    }
}

/// Submitting focuses the first field that fails: where some field of an
/// active form fails the form stays active, its errors are the failures of all fields in field
/// order, the focus is on the first field in that order that fails, and the
/// first errors of the list are the failures of that field.
pub proof fn lemma_submit_focuses_first_failure(s: FormState)
    requires
        s.valid(),
        s.result == FormResult::Active,
        all_failures(s.fields).len() > 0,
    ensures
        0 <= first_failing(s.fields) < s.fields.len(),
        s.fields[first_failing(s.fields)].failures().len() > 0,
        forall|k: int|
            0 <= k < first_failing(s.fields) ==> (#[trigger] s.fields[k]).failures().len() == 0,
        s.submit().result == s.result,
        s.submit().errors == all_failures(s.fields),
        s.submit().focus.field_focused(first_failing(s.fields) as nat),
        s.submit().errors.take(s.fields[first_failing(s.fields)].failures().len() as int)
            == s.fields[first_failing(s.fields)].failures(),
        s.submit().valid(),
{
    let fields = s.fields;
    let failing = fails_at(fields);
    let j = first_failing(fields);
    lemma_first_from_is_first(failing, 0, fields.len() as int);
    lemma_no_failures(fields);
    assert(j < fields.len()) by {
        if j >= fields.len() {
            assert forall|i: int| 0 <= i < fields.len() implies (#[trigger] fields[i]).failures().len()
                == 0 by {
                assert(!failing(i));
            }
        }
    }
    assert forall|k: int| 0 <= k < j implies (#[trigger] fields[k]).failures().len() == 0 by {
        assert(!failing(k));
    }
    lemma_no_failures(fields.take(j));
    assert forall|i: int| 0 <= i < fields.take(j).len() implies (#[trigger] fields.take(
        j,
    )[i]).failures().len() == 0 by {
        assert(fields.take(j)[i] == fields[i]);
    }
    assert(fields.take(j + 1).drop_last() =~= fields.take(j));
    assert(all_failures(fields.take(j + 1)) =~= fields[j].failures());
    lemma_failures_prefix(fields, j + 1);
}

/// Where one field alone fails, the failures of all the fields are its own.
pub proof fn lemma_failures_of_single(fields: Seq<FieldState>, i: int)
    requires
        0 <= i < fields.len(),
        forall|k: int| 0 <= k < fields.len() && k != i ==> (#[trigger] fields[k]).failures().len() == 0,
    ensures
        all_failures(fields) == fields[i].failures(),
    decreases fields.len(),
{
    let front = fields.drop_last();
    assert forall|k: int| 0 <= k < front.len() implies front[k] == fields[k] by {}
    if i == fields.len() - 1 {
        lemma_no_failures(front);
        assert forall|k: int| 0 <= k < front.len() implies (#[trigger] front[k]).failures().len()
            == 0 by {
            assert(front[k] == fields[k]);
        }
        assert(all_failures(fields) =~= fields[i].failures());
    } else {
        assert forall|k: int| 0 <= k < front.len() && k != i implies (
        #[trigger] front[k]).failures().len() == 0 by {
            assert(front[k] == fields[k]);
        }
        lemma_failures_of_single(front, i);
        assert(fields.last() == fields[fields.len() - 1]);
        assert(all_failures(fields) =~= fields[i].failures());
    }
}

/// Where one field of an active form alone fails, submitting stores the
/// failures of that field and nothing else, and gives it the focus.
pub proof fn lemma_submit_with_single_failure(s: FormState, i: int)
    requires
        s.valid(),
        s.result == FormResult::Active,
        0 <= i < s.fields.len(),
        s.fields[i].failures().len() > 0,
        forall|k: int|
            0 <= k < s.fields.len() && k != i ==> (#[trigger] s.fields[k]).failures().len() == 0,
    ensures
        s.submit().errors == s.fields[i].failures(),
        s.submit().focus.field_focused(i as nat),
        s.submit().result == s.result,
{
    lemma_failures_of_single(s.fields, i);
    let failing = fails_at(s.fields);
    assert forall|k: int| 0 <= k < i implies !#[trigger] failing(k) by {
        assert(s.fields[k].failures().len() == 0);
    }
    assert(failing(i));
    lemma_first_from(failing, 0, s.fields.len() as int, i);
}

/// A form is submitted exactly when no field fails; it then holds no errors.
pub proof fn lemma_submit_succeeds_when_clean(s: FormState)
    requires
        s.valid(),
        s.result == FormResult::Active,
    ensures
        s.submit().result == FormResult::Submitted <==> forall|i: int|
            0 <= i < s.fields.len() ==> (#[trigger] s.fields[i]).failures().len() == 0,
        s.submit().result == FormResult::Submitted ==> s.submit().errors.len() == 0,
{
    lemma_no_failures(s.fields);
}

/// No transition leaves a terminal state: a form that was submitted or
/// cancelled ignores every key, cannot be submitted again, and hands no key
/// to a field.
pub proof fn lemma_terminal_states_are_final(s: FormState, events: Seq<KeyEvent>)
    requires
        s.result != FormResult::Active,
    ensures
        s.run(events) == s,
        s.submit() == s,
        forall|event: KeyEvent| #[trigger] s.delegate(event) == s,
    decreases events.len(),
{
    if events.len() > 0 {
        lemma_terminal_states_are_final(s, events.drop_last());
    }
}

/// The cancel key ends an active form, whatever has the focus and whatever
/// the fields hold.
pub proof fn lemma_cancel_is_unconditional(s: FormState, event: KeyEvent)
    requires
        s.result == FormResult::Active,
        event.code == KeyCode::Esc,
    ensures
        s.apply(event).result == FormResult::Cancelled,
{
}

/// Every key keeps the state of a form valid, and the list of fields at its
/// length: the fields change, the list does not.
pub proof fn lemma_keys_keep_form_valid(s: FormState, events: Seq<KeyEvent>)
    requires
        s.valid(),
    ensures
        s.run(events).valid(),
        s.run(events).fields.len() == s.fields.len(),
        forall|i: int|
            0 <= i < s.fields.len() ==> (#[trigger] s.run(events).fields[i]).id() == s.fields[i].id(),
    decreases events.len(),
{
    if events.len() > 0 {
        lemma_keys_keep_form_valid(s, events.drop_last());
        let t = s.run(events.drop_last());
        let e = events.last();
        crate::navigation::lemma_transitions_preserve_validity(
            t.focus,
            first_failing(t.fields) as nat,
            0,
        );
        assert forall|i: int| 0 <= i < s.fields.len() implies (#[trigger] t.apply(e).fields[i]).id()
            == s.fields[i].id() by {
            assert(t.fields[i].id() == s.fields[i].id());
            assert(t.fields[i].apply(e).id() == t.fields[i].id());
        }
    }
}

/// No two members of `members` have the same key.
pub open spec fn distinct_keys(members: Seq<(Seq<char>, ValueTree)>) -> bool {
    forall|a: int, b: int|
        0 <= a < b < members.len() ==> (#[trigger] members[a]).0 != (#[trigger] members[b]).0
}

/// No two fields of `fields` have the same id.
pub open spec fn distinct_ids(fields: Seq<FieldState>) -> bool {
    forall|a: int, b: int|
        0 <= a < b < fields.len() ==> (#[trigger] fields[a]).id() != (#[trigger] fields[b]).id()
}

/// The value of each field under its id, field by field.
pub open spec fn members_by_field(fields: Seq<FieldState>) -> Seq<(Seq<char>, ValueTree)> {
    fields.map_values(|f: FieldState| (f.id(), f.value()))
}

/// Putting a member in keeps the keys unique.
pub proof fn lemma_insert_keeps_keys_distinct(
    members: Seq<(Seq<char>, ValueTree)>,
    key: Seq<char>,
    value: ValueTree,
)
    requires
        distinct_keys(members),
    ensures
        distinct_keys(insert_member(members, key, value)),
{
    let taken = has_key(members, key);
    lemma_first_from_is_first(taken, 0, members.len() as int);
    let i = key_index(members, key);
    let after = insert_member(members, key, value);
    assert forall|a: int, b: int| 0 <= a < b < after.len() implies (#[trigger] after[a]).0 != (
    #[trigger] after[b]).0 by {
        if i < members.len() {
            assert(taken(i));
            assert(after[a].0 == members[a].0);
            assert(after[b].0 == members[b].0);
        } else {
            if b == members.len() {
                assert(!taken(a));
            }
        }
    }
}

/// The keys of an exported object are unique.
pub proof fn lemma_export_keys_distinct(fields: Seq<FieldState>)
    ensures
        distinct_keys(export(fields)),
    decreases fields.len(),
{
    if fields.len() > 0 {
        lemma_export_keys_distinct(fields.drop_last());
        lemma_insert_keeps_keys_distinct(
            export(fields.drop_last()),
            fields.last().id(),
            fields.last().value(),
        );
    }
}

/// Where the ids of the fields are unique, the exported object holds the
/// value of each field under its id, in the order of the fields.
pub proof fn lemma_export_of_distinct_ids(fields: Seq<FieldState>)
    requires
        distinct_ids(fields),
    ensures
        export(fields) == members_by_field(fields),
    decreases fields.len(),
{
    if fields.len() == 0 {
        assert(export(fields) =~= members_by_field(fields));
    } else {
        let front = fields.drop_last();
        assert forall|a: int, b: int| 0 <= a < b < front.len() implies (#[trigger] front[a]).id() != (
        #[trigger] front[b]).id() by {
            assert(front[a] == fields[a] && front[b] == fields[b]);
        }
        lemma_export_of_distinct_ids(front);
        let members = export(front);
        let key = fields.last().id();
        let taken = has_key(members, key);
        assert forall|k: int| 0 <= k < members.len() implies !#[trigger] taken(k) by {
            assert(members[k].0 == front[k].id());
            assert(front[k] == fields[k]);
            assert(fields.last() == fields[fields.len() - 1]);
        }
        lemma_first_from(taken, 0, members.len() as int, members.len() as int);
        assert(export(fields) =~= members_by_field(fields));
    }
}

/// A form with fields and navigation.
pub struct Form {
    title: Option<String>,
    fields: Vec<FormField>,
    focus_manager: FocusManager,
    style: FormStyle,
    result: FormResult,
    validation_errors: Vec<ValidationError>,
}

impl View for Form {
    type V = FormState;

    closed spec fn view(&self) -> FormState {
        FormState {
            title: match self.title {
                Some(t) => Some(t@),
                None => None,
            },
            fields: states_of(self.fields@),
            focus: self.focus_manager@,
            style: self.style,
            result: self.result,
            errors: failures_of(self.validation_errors@),
        }
    }
}

impl Form {
    /// The invariant of the form: each field meets its own, and the focus
    /// cycle has one slot for each field.
    pub closed spec fn wf(&self) -> bool {
        &&& all_wf(self.fields@)
        &&& self.focus_manager.wf()
        &&& self.focus_manager@.count == self.fields@.len()
    }

    /// The state of a well-formed form is valid.
    pub proof fn lemma_wf_valid(&self)
        requires
            self.wf(),
        ensures
            self@.valid(),
    {
    }

    /// Creates a new form builder.
    pub fn builder() -> (b: FormBuilder)
        ensures
            b.wf(),
            b@ == BuilderState::initial(),
    {
        FormBuilder::new()
    }

    /// Returns the current form result.
    pub fn result(&self) -> (r: &FormResult)
        ensures
            *r == self@.result,
    {
        &self.result
    }

    /// Returns whether the form is still active.
    pub fn is_active(&self) -> (b: bool)
        ensures
            b == (self@.result == FormResult::Active),
    {
        match self.result {
            FormResult::Active => true,
            _ => false,
        }
    }

    /// The title of the form.
    pub fn title(&self) -> (t: Option<&str>)
        ensures
            match t {
                Some(s) => self@.title == Some(s@),
                None => self@.title is None,
            },
    {
        match &self.title {
            Some(s) => Some(s.as_str()),
            None => None,
        }
    }

    /// The fields of the form, in order.
    pub fn fields(&self) -> (fields: &Vec<FormField>)
        requires
            self.wf(),
        ensures
            all_wf(fields@),
            states_of(fields@) == self@.fields,
    {
        &self.fields
    }

    /// The focus cycle of the form.
    pub fn focus(&self) -> (focus: &FocusManager)
        requires
            self.wf(),
        ensures
            focus.wf(),
            focus@ == self@.focus,
    {
        &self.focus_manager
    }

    /// The theme of the form.
    pub fn style(&self) -> (style: &FormStyle)
        ensures
            *style == self@.style,
    {
        &self.style
    }

    /// Returns validation errors.
    pub fn validation_errors(&self) -> (errors: &[ValidationError])
        ensures
            failures_of(errors@) == self@.errors,
    {
        self.validation_errors.as_slice()
    }

    /// The line that sums up the errors of the last attempt to submit.
    pub fn error_summary(&self) -> (summary: Option<String>)
        ensures
            match summary {
                Some(text) => self@.error_summary() == Some(text@),
                None => self@.error_summary() is None,
            },
    {
        let count: usize = self.validation_errors.len();
        if count == 0 {
            None
        } else if count == 1 {
            Some(String::from_str("1 validation error"))
        } else {
            let digits = decimal(count);
            Some(joined(digits.as_str(), " validation errors"))
        }
    }

    /// The text of the submit button: in brackets while it has the focus.
    pub fn submit_label(&self) -> (label: &'static str)
        ensures
            label@ == if self@.focus.submit {
                "[ Submit ]"@
            } else {
                "  Submit  "@
            },
    {
        if self.focus_manager.is_submit_focused() {
            "[ Submit ]"
        } else {
            "  Submit  "
        }
    }

    /// Hands the key to the focused field of an active form. Returns whether
    /// the field took it.
    pub fn delegate_to_focused_field(&mut self, event: &KeyEvent) -> (consumed: bool)
        requires
            old(self).wf(),
        ensures
            final(self).wf(),
            final(self)@ == old(self)@.delegate(*event),
            consumed == old(self)@.delegated_consumes(*event),
    {
        if !self.is_active() || self.focus_manager.is_submit_focused() {
            return false;
        }
        let index: usize = self.focus_manager.current_index();
        if index < self.fields.len() {
            let ghost before = self.fields@;
            let field = &mut self.fields[index];
            let consumed = field.handle_input(event);
            proof {
                assert(self.fields@ == before.update(index as int, self.fields@[index as int]));
                assert forall|i: int| 0 <= i < self.fields@.len() implies (
                #[trigger] self.fields@[i]).wf() by {
                    if i != index {
                        assert(self.fields@[i] == before[i]);
                    }
                }
                assert(states_of(self.fields@) =~= states_of(before).update(
                    index as int,
                    states_of(before)[index as int].apply(*event),
                ));
            }
            consumed
        } else {
            false
        }
    }

    /// Validates every field of an active form. Where none fails the form is
    /// submitted; else the failures are stored and the first field that fails
    /// gets the focus. A form that was submitted or cancelled stays as it is.
    pub fn try_submit(&mut self)
        requires
            old(self).wf(),
        ensures
            final(self).wf(),
            final(self)@ == old(self)@.submit(),
    {
        if !self.is_active() {
            return ;
        }
        let mut errors: Vec<ValidationError> = Vec::new();
        let mut first: Option<usize> = None;
        let ghost states = states_of(self.fields@);
        let ghost failing = fails_at(states);
        let mut i: usize = 0;
        assert(states.take(0) =~= Seq::empty());
        assert(failures_of(errors@) =~= Seq::<Failure>::empty());
        while i < self.fields.len()
            invariant
                i <= self.fields.len(),
                all_wf(self.fields@),
                states == states_of(self.fields@),
                failing == fails_at(states),
                failures_of(errors@) == all_failures(states.take(i as int)),
                match first {
                    Some(j) => j < i && failing(j as int) && (forall|k: int|
                        0 <= k < j ==> !#[trigger] failing(k)) && errors@.len() > 0,
                    None => (forall|k: int| 0 <= k < i ==> !#[trigger] failing(k)) && errors@.len()
                        == 0,
                },
            decreases self.fields.len() - i,
        {
            assert(states.take(i + 1).drop_last() =~= states.take(i as int));
            assert(states.take(i + 1).last() == states[i as int]);
            match self.fields[i].validate() {
                Ok(_) => {
                    assert(all_failures(states.take(i + 1)) =~= all_failures(states.take(i as int)));
                },
                Err(mut e) => {
                    if first.is_none() {
                        first = Some(i);
                    }
                    assert(failures_of(errors@ + e@) =~= failures_of(errors@) + failures_of(e@));
                    errors.append(&mut e);
                },
            }
            i = i + 1;
        }
        assert(states.take(states.len() as int) =~= states);
        self.validation_errors = errors;
        match first {
            None => {
                self.result = FormResult::Submitted;
            },
            Some(j) => {
                proof {
                    lemma_first_from(failing, 0, states.len() as int, j as int);
                }
                self.focus_manager.focus_field(j);
            },
        }
    }

    /// Handles keyboard input.
    pub fn handle_input(&mut self, event: KeyEvent)
        requires
            old(self).wf(),
        ensures
            final(self).wf(),
            final(self)@ == old(self)@.apply(event),
    {
        if !self.is_active() {
            return ;
        }
        match event.code {
            KeyCode::Esc => {
                self.result = FormResult::Cancelled;
            },
            KeyCode::Tab => {
                if event.modifiers.shift {
                    self.focus_manager.focus_previous();
                } else {
                    self.focus_manager.focus_next();
                }
            },
            KeyCode::Enter => {
                if self.focus_manager.is_submit_focused() {
                    self.try_submit();
                } else {
                    self.delegate_to_focused_field(&event);
                }
            },
            KeyCode::Down => {
                proof {
                    if !self@.delegated_consumes(event) {
                        self@.lemma_declined_key_changes_nothing(event);
                    }
                }
                if !self.delegate_to_focused_field(&event) {
                    self.focus_manager.focus_next();
                }
            },
            KeyCode::Up => {
                proof {
                    if !self@.delegated_consumes(event) {
                        self@.lemma_declined_key_changes_nothing(event);
                    }
                }
                if !self.delegate_to_focused_field(&event) {
                    self.focus_manager.focus_previous();
                }
            },
            _ => {
                self.delegate_to_focused_field(&event);
            },
        }
    }

    /// Returns the form data as a value tree: an object with the value of
    /// each field under its id, in the order of the fields.
    pub fn to_json(&self) -> (v: serde_json::Value)
        requires
            self.wf(),
        ensures
            tree_of(v) == self@.value(),
    {
        let mut members = new_map();
        let ghost states = states_of(self.fields@);
        let mut i: usize = 0;
        assert(states.take(0) =~= Seq::empty());
        while i < self.fields.len()
            invariant
                i <= self.fields.len(),
                all_wf(self.fields@),
                states == states_of(self.fields@),
                members_of(members) == export(states.take(i as int)),
            decreases self.fields.len() - i,
        {
            assert(states.take(i + 1).drop_last() =~= states.take(i as int));
            assert(states.take(i + 1).last() == states[i as int]);
            let key = String::from_str(self.fields[i].id());
            let value = self.fields[i].value();
            map_insert(&mut members, key, value);
            i = i + 1;
        }
        assert(states.take(states.len() as int) =~= states);
        object_value(members)
    }
}

/// The state of a form builder.
pub struct BuilderState {
    pub title: Option<Seq<char>>,
    pub fields: Seq<FieldState>,
    pub style: FormStyle,
}

impl BuilderState {
    /// Nothing added yet: no title, no fields, the default theme.
    pub open spec fn initial() -> BuilderState {
        BuilderState { title: None, fields: Seq::empty(), style: FormStyle::dark_theme() }
    }

    /// The builder with one more field at the end.
    pub open spec fn with_field(self, field: FieldState) -> BuilderState {
        BuilderState { fields: self.fields.push(field), ..self }
    }

    /// The form that the builder makes: active, focused on the first field,
    /// without errors.
    pub open spec fn built(self) -> FormState {
        FormState {
            title: self.title,
            fields: self.fields,
            focus: FocusState::initial(self.fields.len()),
            style: self.style,
            result: FormResult::Active,
            errors: Seq::empty(),
        }
    }
}

/// Builder for creating forms.
pub struct FormBuilder {
    title: Option<String>,
    fields: Vec<FormField>,
    style: FormStyle,
}

impl View for FormBuilder {
    type V = BuilderState;

    closed spec fn view(&self) -> BuilderState {
        BuilderState {
            title: match self.title {
                Some(t) => Some(t@),
                None => None,
            },
            fields: states_of(self.fields@),
            style: self.style,
        }
    }
}

impl FormBuilder {
    /// The invariant of the builder: each field added meets its own.
    pub closed spec fn wf(&self) -> bool {
        all_wf(self.fields@)
    }

    /// Creates a new form builder.
    pub fn new() -> (b: Self)
        ensures
            b.wf(),
            b@ == BuilderState::initial(),
    {
        let b = Self { title: None, fields: Vec::new(), style: FormStyle::default() };
        assert(states_of(b.fields@) =~= Seq::empty());
        b
    }

    /// Sets the form title.
    pub fn title(self, title: &str) -> (b: Self)
        requires
            self.wf(),
        ensures
            b.wf(),
            b@ == (BuilderState { title: Some(title@), ..self@ }),
    {
        let mut b = self;
        b.title = Some(String::from_str(title));
        b
    }

    /// Sets the form style.
    pub fn style(self, style: FormStyle) -> (b: Self)
        requires
            self.wf(),
        ensures
            b.wf(),
            b@ == (BuilderState { style, ..self@ }),
    {
        let mut b = self;
        b.style = style;
        b
    }

    /// Starts building a text field.
    pub fn text(self, id: &str, label: &str) -> (t: TextFieldBuilder)
        requires
            self.wf(),
        ensures
            t.wf(),
            t.parent() == self@,
            t.state() == TextState::initial(id@, label@),
    {
        TextFieldBuilder::new(self, id, label)
    }

    /// Starts building a select field.
    pub fn select(self, id: &str, label: &str) -> (s: SelectFieldBuilder)
        requires
            self.wf(),
        ensures
            s.wf(),
            s.parent() == self@,
            s.state() == SelectState::initial(id@, label@),
    {
        SelectFieldBuilder::new(self, id, label)
    }

    /// Starts building a checkbox field.
    pub fn checkbox(self, id: &str, label: &str) -> (c: CheckboxFieldBuilder)
        requires
            self.wf(),
        ensures
            c.wf(),
            c.parent() == self@,
            c.state() == (CheckboxState {
                id: id@,
                label: label@,
                checked: false,
                required: false,
            }),
    {
        CheckboxFieldBuilder::new(self, id, label)
    }

    /// Adds a pre-built field.
    pub fn field(self, field: FormField) -> (b: Self)
        requires
            self.wf(),
            field.wf(),
        ensures
            b.wf(),
            b@ == self@.with_field(field@),
    {
        let mut b = self;
        b.fields.push(field);
        assert(states_of(b.fields@) =~= states_of(self.fields@).push(field@));
        b
    }

    /// Adds fields at the end, in their order.
    pub fn fields(self, fields: Vec<FormField>) -> (b: Self)
        requires
            self.wf(),
            all_wf(fields@),
        ensures
            b.wf(),
            b@ == (BuilderState { fields: self@.fields + states_of(fields@), ..self@ }),
    {
        let mut b = self;
        let mut fields = fields;
        assert(states_of(b.fields@ + fields@) =~= states_of(b.fields@) + states_of(fields@));
        b.fields.append(&mut fields);
        b
    }

    /// Adds all fields from a block. It succeeds exactly when the block can
    /// make its fields; else it returns the error of the pattern of the block
    /// that could not be compiled.
    pub fn block<B: Block>(self, block: B) -> (r: Result<Self, PatternError>)
        requires
            self.wf(),
        ensures
            r is Ok <==> block.expands(),
            match r {
                Ok(b) => b.wf() && exists|fields: Seq<FieldState>|
                    block.produces(fields) && b@ == (BuilderState {
                        fields: self@.fields + fields,
                        ..self@
                    }),
                Err(error) => block.fails_with(error),
            },
    {
        match block.fields() {
            Ok(fields) => Ok(self.fields(fields)),
            Err(e) => Err(e),
        }
    }

    /// Builds the form.
    pub fn build(self) -> (form: Form)
        requires
            self.wf(),
        ensures
            form.wf(),
            form@ == self@.built(),
    {
        let field_count: usize = self.fields.len();
        let form = Form {
            title: self.title,
            fields: self.fields,
            focus_manager: FocusManager::new(field_count),
            style: self.style,
            result: FormResult::Active,
            validation_errors: Vec::new(),
        };
        assert(failures_of(form.validation_errors@) =~= Seq::<Failure>::empty());
        form
    }
}

impl Default for FormBuilder {
    fn default() -> (b: Self)
        ensures
            b.wf(),
            b@ == BuilderState::initial(),
    {
        Self::new()
    }
}

/// Builder for text fields.
pub struct TextFieldBuilder {
    form_builder: FormBuilder,
    field: TextInput,
}

impl TextFieldBuilder {
    /// The invariant of the builder: that of the form builder it came from
    /// and that of the field under construction.
    pub closed spec fn wf(&self) -> bool {
        self.form_builder.wf() && self.field.wf()
    }

    /// The state of the form builder that this builder came from.
    pub closed spec fn parent(&self) -> BuilderState {
        self.form_builder@
    }

    /// The state of the field under construction.
    pub closed spec fn state(&self) -> TextState {
        self.field@
    }

    fn new(form_builder: FormBuilder, id: &str, label: &str) -> (t: Self)
        requires
            form_builder.wf(),
        ensures
            t.wf(),
            t.parent() == form_builder@,
            t.state() == TextState::initial(id@, label@),
    {
        Self { form_builder, field: TextInput::new(id, label) }
    }

    /// Sets a placeholder.
    pub fn placeholder(self, placeholder: &str) -> (t: Self)
        requires
            self.wf(),
        ensures
            t.wf(),
            t.parent() == self.parent(),
            t.state() == (TextState { placeholder: Some(placeholder@), ..self.state() }),
    {
        Self { form_builder: self.form_builder, field: self.field.placeholder(placeholder) }
    }

    /// Marks the field as required.
    pub fn required(self) -> (t: Self)
        requires
            self.wf(),
        ensures
            t.wf(),
            t.parent() == self.parent(),
            t.state() == (TextState { required: true, ..self.state() }),
    {
        Self { form_builder: self.form_builder, field: self.field.required() }
    }

    /// Sets the initial value.
    pub fn initial_value(self, value: &str) -> (t: Self)
        requires
            self.wf(),
        ensures
            t.wf(),
            t.parent() == self.parent(),
            t.state() == (TextState { text: value@, cursor: value@.len(), ..self.state() }),
    {
        Self { form_builder: self.form_builder, field: self.field.initial_value(value) }
    }

    /// Adds a validator.
    pub fn validator(self, validator: Rule) -> (t: Self)
        requires
            self.wf(),
        ensures
            t.wf(),
            t.parent() == self.parent(),
            t.state() == (TextState {
                rules: self.state().rules.push(validator),
                ..self.state()
            }),
    {
        Self { form_builder: self.form_builder, field: self.field.validator(validator) }
    }

    /// Finishes building this field and returns to the form builder.
    pub fn done(self) -> (b: FormBuilder)
        requires
            self.wf(),
        ensures
            b.wf(),
            b@ == self.parent().with_field(FieldState::Text(self.state())),
    {
        self.form_builder.field(FormField::Text(self.field))
    }
}

/// Builder for select fields.
pub struct SelectFieldBuilder {
    form_builder: FormBuilder,
    field: Select,
}

impl SelectFieldBuilder {
    /// The invariant of the builder: that of the form builder it came from
    /// and that of the field under construction.
    pub closed spec fn wf(&self) -> bool {
        self.form_builder.wf() && self.field.wf()
    }

    /// The state of the form builder that this builder came from.
    pub closed spec fn parent(&self) -> BuilderState {
        self.form_builder@
    }

    /// The state of the field under construction.
    pub closed spec fn state(&self) -> SelectState {
        self.field@
    }

    fn new(form_builder: FormBuilder, id: &str, label: &str) -> (s: Self)
        requires
            form_builder.wf(),
        ensures
            s.wf(),
            s.parent() == form_builder@,
            s.state() == SelectState::initial(id@, label@),
    {
        Self { form_builder, field: Select::new(id, label) }
    }

    /// Adds an option.
    pub fn option(self, value: &str, display: &str) -> (s: Self)
        requires
            self.wf(),
        ensures
            s.wf(),
            s.parent() == self.parent(),
            s.state() == (SelectState {
                options: self.state().options.push((value@, display@)),
                ..self.state()
            }),
    {
        Self { form_builder: self.form_builder, field: self.field.option(value, display) }
    }

    /// Adds multiple options.
    pub fn options(self, options: Vec<(String, String)>) -> (s: Self)
        requires
            self.wf(),
        ensures
            s.wf(),
            s.parent() == self.parent(),
            s.state() == (SelectState {
                options: self.state().options + options_of(options@),
                ..self.state()
            }),
    {
        Self { form_builder: self.form_builder, field: self.field.options(options) }
    }

    /// Marks the field as required.
    pub fn required(self) -> (s: Self)
        requires
            self.wf(),
        ensures
            s.wf(),
            s.parent() == self.parent(),
            s.state() == (SelectState { required: true, ..self.state() }),
    {
        Self { form_builder: self.form_builder, field: self.field.required() }
    }

    /// Sets the initial value.
    pub fn initial_value(self, value: &str) -> (s: Self)
        requires
            self.wf(),
        ensures
            s.wf(),
            s.parent() == self.parent(),
            s.state() == self.state().preset(value@),
    {
        Self { form_builder: self.form_builder, field: self.field.initial_value(value) }
    }

    /// Finishes building this field and returns to the form builder.
    pub fn done(self) -> (b: FormBuilder)
        requires
            self.wf(),
        ensures
            b.wf(),
            b@ == self.parent().with_field(FieldState::Select(self.state())),
    {
        self.form_builder.field(FormField::Select(self.field))
    }
}

/// Builder for checkbox fields.
pub struct CheckboxFieldBuilder {
    form_builder: FormBuilder,
    field: Checkbox,
}

impl CheckboxFieldBuilder {
    /// The invariant of the builder: that of the form builder it came from.
    pub closed spec fn wf(&self) -> bool {
        self.form_builder.wf()
    }

    /// The state of the form builder that this builder came from.
    pub closed spec fn parent(&self) -> BuilderState {
        self.form_builder@
    }

    /// The state of the field under construction.
    pub closed spec fn state(&self) -> CheckboxState {
        self.field@
    }

    fn new(form_builder: FormBuilder, id: &str, label: &str) -> (c: Self)
        requires
            form_builder.wf(),
        ensures
            c.wf(),
            c.parent() == form_builder@,
            c.state() == (CheckboxState {
                id: id@,
                label: label@,
                checked: false,
                required: false,
            }),
    {
        Self { form_builder, field: Checkbox::new(id, label) }
    }

    /// Sets the initial checked state.
    pub fn checked(self, checked: bool) -> (c: Self)
        requires
            self.wf(),
        ensures
            c.wf(),
            c.parent() == self.parent(),
            c.state() == (CheckboxState { checked, ..self.state() }),
    {
        Self { form_builder: self.form_builder, field: self.field.checked(checked) }
    }

    /// Marks the field as required (must be checked).
    pub fn required(self) -> (c: Self)
        requires
            self.wf(),
        ensures
            c.wf(),
            c.parent() == self.parent(),
            c.state() == (CheckboxState { required: true, ..self.state() }),
    {
        Self { form_builder: self.form_builder, field: self.field.required() }
    }

    /// Finishes building this field and returns to the form builder.
    pub fn done(self) -> (b: FormBuilder)
        requires
            self.wf(),
        ensures
            b.wf(),
            b@ == self.parent().with_field(FieldState::Checkbox(self.state())),
    {
        self.form_builder.field(FormField::Checkbox(self.field))
    }
}

} // verus!
