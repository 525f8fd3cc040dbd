//! Select/dropdown field.

use crate::event::{KeyCode, KeyEvent};
use crate::field::Field;
use crate::strings::{caption_of, joined, make_caption};
use crate::validation::{Failure, ValidationError};
use crate::value::{null_value, string_value, ValueTree};
use vstd::prelude::*;

verus! {

/// The most options that an open dropdown shows at once.
pub const VISIBLE_OPTIONS: usize = 10;

/// The state of a select field: its options as pairs of value and display
/// text, the chosen option, and the dropdown with its highlight.
pub struct SelectState {
    pub id: Seq<char>,
    pub label: Seq<char>,
    pub options: Seq<(Seq<char>, Seq<char>)>,
    pub selected: Option<nat>,
    pub open: bool,
    pub highlighted: nat,
    pub required: bool,
}

/// The first position at which an option of `options` has the value
/// `value`, or the number of options where none has.
pub open spec fn first_with_value(options: Seq<(Seq<char>, Seq<char>)>, value: Seq<char>) -> nat
    decreases options.len(),
{
    if options.len() == 0 {
        0
    } else if options[0].0 == value {
        0
    } else {
        1 + first_with_value(options.drop_first(), value)
    }
}

impl SelectState {
    /// The highlight and the selection point at options: the highlight at an
    /// existing one whenever there is any, and at 0 when there is none.
    pub open spec fn valid(self) -> bool {
        &&& if self.options.len() == 0 {
            self.highlighted == 0
        } else {
            self.highlighted < self.options.len()
        }
        &&& self.selected matches Some(i) ==> i < self.options.len()
    }

    /// A fresh select: no options, nothing chosen, closed.
    pub open spec fn initial(id: Seq<char>, label: Seq<char>) -> SelectState {
        SelectState {
            id,
            label,
            options: Seq::empty(),
            selected: None,
            open: false,
            highlighted: 0,
            required: false,
        }
    }

    /// The dropdown opened, with the highlight on the chosen option, or on
    /// the first where none is chosen.
    pub open spec fn opened(self) -> SelectState {
        SelectState {
            open: true,
            highlighted: match self.selected {
                Some(i) => i,
                None => 0,
            },
            ..self
        }
    }

    /// The dropdown closed, the choice as it was.
    pub open spec fn closed(self) -> SelectState {
        SelectState { open: false, ..self }
    }

    /// The dropdown closed and the highlighted option chosen.
    pub open spec fn chosen(self) -> SelectState {
        SelectState {
            open: false,
            selected: if self.options.len() > 0 {
                Some(self.highlighted)
            } else {
                self.selected
            },
            ..self
        }
    }

    /// The highlight one option up; it stops at the first.
    pub open spec fn up(self) -> SelectState {
        if self.highlighted > 0 {
            SelectState { highlighted: (self.highlighted - 1) as nat, ..self }
        } else {
            self
        }
    }

    /// The highlight one option down; it stops at the last.
    pub open spec fn down(self) -> SelectState {
        if self.highlighted + 1 < self.options.len() {
            SelectState { highlighted: self.highlighted + 1, ..self }
        } else {
            self
        }
    }

    /// The option with the value `value` chosen and highlighted, the first
    /// where several have it; nothing changes where none has it.
    pub open spec fn preset(self, value: Seq<char>) -> SelectState {
        let i = first_with_value(self.options, value);
        if i < self.options.len() {
            SelectState { selected: Some(i), highlighted: i, ..self }
        } else {
            self
        }
    }

    /// Whether the select takes the key. Enter, the space bar and Down are
    /// always taken; Up and Esc only while the dropdown is open.
    pub open spec fn consumes(self, event: KeyEvent) -> bool {
        match event.code {
            KeyCode::Enter => true,
            KeyCode::Char(c) => c == ' ',
            KeyCode::Esc => self.open,
            KeyCode::Up => self.open,
            KeyCode::Down => true,
            _ => false,
        }
    }

    /// The state after Enter or the space bar.
    pub open spec fn activate(self) -> SelectState {
        if self.open {
            self.chosen()
        } else {
            self.opened()
        }
    }

    /// The state after the key.
    pub open spec fn apply(self, event: KeyEvent) -> SelectState {
        match event.code {
            KeyCode::Enter => self.activate(),
            KeyCode::Char(c) => if c == ' ' {
                self.activate()
            } else {
                self
            },
            KeyCode::Esc => self.closed(),
            KeyCode::Up => if self.open {
                self.up()
            } else {
                self
            },
            KeyCode::Down => if self.open {
                self.down()
            } else {
                self.opened()
            },
            _ => self,
        }
    }

    /// The value of the chosen option, or null where none is chosen.
    pub open spec fn value(self) -> ValueTree {
        match self.selected {
            Some(i) => if i < self.options.len() {
                ValueTree::String(self.options[i as int].0)
            } else {
                ValueTree::Null
            },
            None => ValueTree::Null,
        }
    }

    /// What the closed select shows: the display text of the chosen option,
    /// or an invitation to choose.
    pub open spec fn shown_text(self) -> Seq<char> {
        match self.selected {
            Some(i) => if i < self.options.len() {
                self.options[i as int].1
            } else {
                "-- Select --"@
            },
            None => "-- Select --"@,
        }
    }

    /// A required select with nothing chosen fails.
    pub open spec fn failures(self) -> Seq<Failure> {
        if self.required && self.selected is None {
            seq![Failure { field_id: self.id, message: self.label + " is required"@ }]
        } else {
            Seq::empty()
        }
    }

    /// One row while closed; while open, one more for each option shown.
    pub open spec fn rows(self) -> nat {
        if self.open {
            if self.options.len() <= VISIBLE_OPTIONS {
                1 + self.options.len()
            } else {
                1 + VISIBLE_OPTIONS as nat
            }
        } else {
            1
        }
    }
}

/// The options of a select as pairs of sequences.
pub open spec fn options_of(options: Seq<(String, String)>) -> Seq<(Seq<char>, Seq<char>)> {
    options.map_values(|o: (String, String)| (o.0@, o.1@))
}

/// A select/dropdown field.
pub struct Select {
    id: String,
    label: String,
    options: Vec<(String, String)>,
    selected_index: Option<usize>,
    is_open: bool,
    highlighted_index: usize,
    required: bool,
}

impl View for Select {
    type V = SelectState;

    closed spec fn view(&self) -> SelectState {
        SelectState {
            id: self.id@,
            label: self.label@,
            options: options_of(self.options@),
            selected: match self.selected_index {
                Some(i) => Some(i as nat),
                None => None,
            },
            open: self.is_open,
            highlighted: self.highlighted_index as nat,
            required: self.required,
        }
    }
}

impl Select {
    /// Creates a new select field.
    pub fn new(id: &str, label: &str) -> (s: Self)
        ensures
            s.wf(),
            s@ == SelectState::initial(id@, label@),
    {
        let s = Self {
            id: String::from_str(id),
            label: String::from_str(label),
            options: Vec::new(),
            selected_index: None,
            is_open: false,
            highlighted_index: 0,
            required: false,
        };
        assert(options_of(s.options@) =~= Seq::empty());
        s
    }

    /// Adds an option to the select.
    pub fn option(self, value: &str, display: &str) -> (s: Self)
        requires
            self.wf(),
        ensures
            s.wf(),
            s@ == (SelectState { options: self@.options.push((value@, display@)), ..self@ }),
    {
        let mut s = self;
        s.options.push((String::from_str(value), String::from_str(display)));
        assert(options_of(s.options@) =~= options_of(self.options@).push((value@, display@)));
        s
    }

    /// Adds multiple options at once.
    pub fn options(self, options: Vec<(String, String)>) -> (s: Self)
        requires
            self.wf(),
        ensures
            s.wf(),
            s@ == (SelectState { options: self@.options + options_of(options@), ..self@ }),
    {
        let mut s = self;
        let mut options = options;
        assert(options_of(s.options@) + options_of(options@) =~= options_of(
            s.options@ + options@,
        ));
        s.options.append(&mut options);
        s
    }

    /// Marks this field as required.
    pub fn required(self) -> (s: Self)
        requires
            self.wf(),
        ensures
            s.wf(),
            s@ == (SelectState { required: true, ..self@ }),
    {
        let mut s = self;
        s.required = true;
        s
    }

    /// Sets the initial selected value.
    pub fn initial_value(self, value: &str) -> (s: Self)
        requires
            self.wf(),
        ensures
            s.wf(),
            s@ == self@.preset(value@),
    {
        let mut s = self;
        let needle = String::from_str(value);
        let mut i: usize = 0;
        assert(options_of(s.options@).skip(0) =~= options_of(s.options@));
        while i < s.options.len()
            invariant
                i <= s.options.len(),
                s == self,
                needle@ == value@,
                first_with_value(options_of(s.options@), value@) == i + first_with_value(
                    options_of(s.options@).skip(i as int),
                    value@,
                ),
            decreases s.options.len() - i,
        {
            let ghost rest = options_of(s.options@).skip(i as int);
            assert(rest[0] == options_of(s.options@)[i as int]);
            assert(rest.drop_first() =~= options_of(s.options@).skip(i + 1));
            if s.options[i].0 == needle {
                s.selected_index = Some(i);
                s.highlighted_index = i;
                return s;
            }
            i = i + 1;
        }
        s
    }

    /// The label as it is shown: with a star where the select is required,
    /// and a colon.
    pub fn caption(&self) -> (caption: String)
        ensures
            caption@ == caption_of(self@.label, self@.required, ": "@),
    {
        make_caption(self.label.as_str(), self.required, ": ")
    }

    /// The text that the closed select shows.
    pub fn display_text(&self) -> (s: &str)
        ensures
            s@ == self@.shown_text(),
    {
        match self.selected_index {
            Some(i) => {
                if i < self.options.len() {
                    self.options[i].1.as_str()
                } else {
                    "-- Select --"
                }
            },
            None => "-- Select --",
        }
    }

    /// The options, as pairs of value and display text.
    pub fn option_list(&self) -> (options: &Vec<(String, String)>)
        ensures
            options_of(options@) == self@.options,
    {
        &self.options
    }

    /// The position of the chosen option.
    pub fn selected_index(&self) -> (i: Option<usize>)
        ensures
            match i {
                Some(i) => self@.selected == Some(i as nat),
                None => self@.selected is None,
            },
    {
        self.selected_index
    }

    /// Whether the dropdown is open.
    pub fn is_open(&self) -> (b: bool)
        ensures
            b == self@.open,
    {
        self.is_open
    }

    /// The position of the highlight.
    pub fn highlighted_index(&self) -> (i: usize)
        ensures
            i == self@.highlighted,
    {
        self.highlighted_index
    }

    /// Opens the dropdown where it is closed, and closes it where it is open.
    pub fn toggle_open(&mut self)
        requires
            old(self).wf(),
        ensures
            final(self).wf(),
            final(self)@ == if old(self)@.open {
                old(self)@.closed()
            } else {
                old(self)@.opened()
            },
    {
        self.is_open = !self.is_open;
        if self.is_open {
            self.highlighted_index = match self.selected_index {
                Some(i) => i,
                None => 0,
            };
        }
    }

    /// Chooses the highlighted option and closes the dropdown.
    pub fn select_highlighted(&mut self)
        requires
            old(self).wf(),
        ensures
            final(self).wf(),
            final(self)@ == old(self)@.chosen(),
    {
        if self.options.len() > 0 {
            self.selected_index = Some(self.highlighted_index);
        }
        self.is_open = false;
    }

    /// Moves the highlight one option up.
    pub fn move_highlight_up(&mut self)
        requires
            old(self).wf(),
        ensures
            final(self).wf(),
            final(self)@ == old(self)@.up(),
    {
        if self.highlighted_index > 0 {
            self.highlighted_index -= 1;
        }
    }

    /// Moves the highlight one option down.
    pub fn move_highlight_down(&mut self)
        requires
            old(self).wf(),
        ensures
            final(self).wf(),
            final(self)@ == old(self)@.down(),
    {
        if self.options.len() > 0 && self.highlighted_index < self.options.len() - 1 {
            self.highlighted_index += 1;
        }
    }

    fn activate(&mut self)
        requires
            old(self).wf(),
        ensures
            final(self).wf(),
            final(self)@ == old(self)@.activate(),
    {
        if self.is_open {
            self.select_highlighted();
        } else {
            self.toggle_open();
        }
    }
}

impl Field for Select {
    open spec fn wf(&self) -> bool {
        self@.valid()
    }

    open spec fn id_text(&self) -> Seq<char> {
        self@.id
    }

    open spec fn label_text(&self) -> Seq<char> {
        self@.label
    }

    open spec fn required_flag(&self) -> bool {
        self@.required
    }

    open spec fn rows(&self) -> nat {
        self@.rows()
    }

    open spec fn value_tree(&self) -> ValueTree {
        self@.value()
    }

    open spec fn failures(&self) -> Seq<Failure> {
        self@.failures()
    }

    fn id(&self) -> (r: &str) {
        self.id.as_str()
    }

    fn label(&self) -> (r: &str) {
        self.label.as_str()
    }

    fn handle_input(&mut self, event: &KeyEvent) -> (consumed: bool)
        ensures
            final(self)@ == old(self)@.apply(*event),
            consumed == old(self)@.consumes(*event),
    {
        match event.code {
            KeyCode::Enter => {
                self.activate();
                true
            },
            KeyCode::Char(c) => {
                if c == ' ' {
                    self.activate();
                    true
                } else {
                    false
                }
            },
            KeyCode::Esc => {
                if self.is_open {
                    self.is_open = false;
                    true
                } else {
                    false
                }
            },
            KeyCode::Up => {
                if self.is_open {
                    self.move_highlight_up();
                    true
                } else {
                    false
                }
            },
            KeyCode::Down => {
                if self.is_open {
                    self.move_highlight_down();
                } else {
                    self.toggle_open();
                }
                true
            },
            _ => false,
        }
    }

    fn value(&self) -> (v: serde_json::Value) {
        match self.selected_index {
            Some(i) => {
                if i < self.options.len() {
                    string_value(self.options[i].0.clone())
                } else {
                    null_value()
                }
            },
            None => null_value(),
        }
    }

    fn validate(&self) -> (r: Result<(), Vec<ValidationError>>) {
        if self.required && self.selected_index.is_none() {
            let mut errors: Vec<ValidationError> = Vec::new();
            errors.push(
                ValidationError {
                    field_id: self.id.clone(),
                    message: joined(self.label.as_str(), " is required"),
                },
            );
            assert(errors@.map_values(|e: ValidationError| e@) =~= self@.failures());
            Err(errors)
        } else {
            Ok(())
        }
    }

    fn height(&self) -> (h: u16) {
        if self.is_open {
            if self.options.len() <= VISIBLE_OPTIONS {
                1 + self.options.len() as u16
            } else {
                1 + VISIBLE_OPTIONS as u16
            }
        } else {
            1
        }
    }

    fn is_required(&self) -> (b: bool) {
        self.required
    }
}

/// The transitions of a select keep its highlight and its choice at existing
/// options, and adding options does too.
pub proof fn lemma_select_stays_valid(
    s: SelectState,
    event: KeyEvent,
    more: Seq<(Seq<char>, Seq<char>)>,
    value: Seq<char>,
)
    requires
        s.valid(),
    ensures
        s.apply(event).valid(),
        s.preset(value).valid(),
        (SelectState { options: s.options + more, ..s }).valid(),
        s.apply(event).options == s.options,
{
}

/// A required select with nothing chosen has exactly one failure, under its
/// own id; a select that is optional, or has a choice, has none.
pub proof fn lemma_required_select_fails_once(s: SelectState)
    ensures
        s.required && s.selected is None ==> s.failures().len() == 1 && s.failures()[0].field_id
            == s.id,
        !s.required || s.selected is Some ==> s.failures().len() == 0,
{
}

/// Closing by selection copies the highlight into the choice; cancelling
/// leaves the choice as it was.
pub proof fn lemma_select_closing(s: SelectState)
    requires
        s.valid(),
        s.open,
        s.options.len() > 0,
    ensures
        s.chosen().selected == Some(s.highlighted),
        !s.chosen().open,
        s.closed().selected == s.selected,
        !s.closed().open,
{
}

} // verus!
