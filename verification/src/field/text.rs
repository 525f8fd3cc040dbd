//! Text input field.

use crate::event::{KeyCode, KeyEvent};
use crate::field::Field;
use crate::strings::{
    blank, byte_len, byte_offset, caption_of, char_index, display_width, encoded_width,
    insert_char_at, is_blank, joined, lemma_boundary_is_offset, lemma_encode_concat,
    lemma_offset_ends, lemma_offset_is_boundary, lemma_offset_monotonic, lemma_width_bounds,
    make_caption, next_boundary, on_boundary, prefix_before, prev_boundary, remove_char_at,
    text_width, width_of,
};
use crate::validation::rules::Rule;
use crate::validation::{failures_of, Failure, ValidationError, Validator};
use crate::value::{string_value, ValueTree};
use vstd::prelude::*;

verus! {

/// The state of a text input: what it shows, and the line under edit with its
/// cursor, counted in characters.
pub struct TextState {
    pub id: Seq<char>,
    pub label: Seq<char>,
    /// The content of the line.
    pub text: Seq<char>,
    /// The number of characters before the cursor.
    pub cursor: nat,
    pub placeholder: Option<Seq<char>>,
    pub required: bool,
    /// The validators, in the order in which they were attached.
    pub rules: Seq<Rule>,
    /// The errors kept for display.
    pub shown_errors: Seq<Failure>,
}

/// The failures of `text` against `rules`, in the order of the rules.
pub open spec fn rule_failures(id: Seq<char>, rules: Seq<Rule>, text: Seq<char>) -> Seq<Failure>
    decreases rules.len(),
{
    if rules.len() == 0 {
        Seq::empty()
    } else {
        let before = rule_failures(id, rules.drop_last(), text);
        if rules.last().accepts(text) {
            before
        } else {
            before.push(Failure { field_id: id, message: rules.last().complaint(text) })
        }
    }
}

impl TextState {
    /// The cursor stands somewhere between the first character and the end.
    pub open spec fn valid(self) -> bool {
        self.cursor <= self.text.len()
    }

    /// The cursor as a byte offset into the encoded content.
    pub open spec fn offset(self) -> nat {
        byte_offset(self.text, self.cursor as int)
    }

    /// A fresh input: empty, optional, without validators.
    pub open spec fn initial(id: Seq<char>, label: Seq<char>) -> TextState {
        TextState {
            id,
            label,
            text: Seq::empty(),
            cursor: 0,
            placeholder: None,
            required: false,
            rules: Seq::empty(),
            shown_errors: Seq::empty(),
        }
    }

    /// `c` put in at the cursor, which moves behind it.
    pub open spec fn insert(self, c: char) -> TextState {
        TextState {
            text: self.text.insert(self.cursor as int, c),
            cursor: self.cursor + 1,
            ..self
        }
    }

    /// The character before the cursor taken out; nothing at the start.
    pub open spec fn backspace(self) -> TextState {
        if self.cursor > 0 {
            TextState {
                text: self.text.remove(self.cursor - 1),
                cursor: (self.cursor - 1) as nat,
                ..self
            }
        } else {
            self
        }
    }

    /// The character at the cursor taken out; nothing at the end.
    pub open spec fn delete(self) -> TextState {
        if self.cursor < self.text.len() {
            TextState { text: self.text.remove(self.cursor as int), ..self }
        } else {
            self
        }
    }

    /// The cursor one character to the left; nothing at the start.
    pub open spec fn left(self) -> TextState {
        if self.cursor > 0 {
            TextState { cursor: (self.cursor - 1) as nat, ..self }
        } else {
            self
        }
    }

    /// The cursor one character to the right; nothing at the end.
    pub open spec fn right(self) -> TextState {
        if self.cursor < self.text.len() {
            TextState { cursor: self.cursor + 1, ..self }
        } else {
            self
        }
    }

    /// The cursor at the start.
    pub open spec fn home(self) -> TextState {
        TextState { cursor: 0, ..self }
    }

    /// The cursor at the end.
    pub open spec fn end(self) -> TextState {
        TextState { cursor: self.text.len(), ..self }
    }

    /// The line emptied.
    pub open spec fn clear(self) -> TextState {
        TextState { text: Seq::empty(), cursor: 0, ..self }
    }

    /// Whether the input takes the key. With Control held only `a`, `e` and
    /// `u` are taken; any other character is typed.
    pub open spec fn consumes(self, event: KeyEvent) -> bool {
        match event.code {
            KeyCode::Char(c) => !event.modifiers.control || c == 'a' || c == 'e' || c == 'u',
            KeyCode::Backspace => true,
            KeyCode::Delete => true,
            KeyCode::Left => true,
            KeyCode::Right => true,
            KeyCode::Home => true,
            KeyCode::End => true,
            _ => false,
        }
    }

    /// The state after the key.
    pub open spec fn apply(self, event: KeyEvent) -> TextState {
        match event.code {
            KeyCode::Char(c) => if event.modifiers.control {
                if c == 'a' {
                    self.home()
                } else if c == 'e' {
                    self.end()
                } else if c == 'u' {
                    self.clear()
                } else {
                    self
                }
            } else {
                self.insert(c)
            },
            KeyCode::Backspace => self.backspace(),
            KeyCode::Delete => self.delete(),
            KeyCode::Left => self.left(),
            KeyCode::Right => self.right(),
            KeyCode::Home => self.home(),
            KeyCode::End => self.end(),
            _ => self,
        }
    }

    /// The state after a sequence of keys.
    pub open spec fn run(self, events: Seq<KeyEvent>) -> TextState
        decreases events.len(),
    {
        if events.len() == 0 {
            self
        } else {
            self.run(events.drop_last()).apply(events.last())
        }
    }

    /// What the input shows: its content, or the placeholder while the
    /// content is empty, or nothing where there is no placeholder either.
    pub open spec fn shown_text(self) -> Seq<char> {
        if self.text.len() > 0 {
            self.text
        } else {
            match self.placeholder {
                Some(p) => p,
                None => Seq::empty(),
            }
        }
    }

    /// Whether what the input shows is its placeholder.
    pub open spec fn shows_placeholder(self) -> bool {
        self.text.len() == 0 && self.placeholder is Some
    }

    /// The failure of required-ness: a required input whose content is blank.
    pub open spec fn required_failure(self) -> Seq<Failure> {
        if self.required && blank(self.text) {
            seq![Failure { field_id: self.id, message: self.label + " is required"@ }]
        } else {
            Seq::empty()
        }
    }

    /// Every failure of the input: that of required-ness first, then one for
    /// each validator that refuses the content.
    pub open spec fn failures(self) -> Seq<Failure> {
        self.required_failure() + rule_failures(self.id, self.rules, self.text)
    }
}

/// A single-line text input field.
pub struct TextInput {
    id: String,
    label: String,
    value: String,
    cursor_position: usize,
    placeholder: Option<String>,
    required: bool,
    validators: Vec<Rule>,
    validation_errors: Vec<ValidationError>,
}

impl View for TextInput {
    type V = TextState;

    closed spec fn view(&self) -> TextState {
        TextState {
            id: self.id@,
            label: self.label@,
            text: self.value@,
            cursor: char_index(self.value@, self.cursor_position as int) as nat,
            placeholder: match self.placeholder {
                Some(p) => Some(p@),
                None => None,
            },
            required: self.required,
            rules: self.validators@,
            shown_errors: failures_of(self.validation_errors@),
        }
    }
}

impl TextInput {
    /// Creates a new text input field.
    pub fn new(id: &str, label: &str) -> (t: Self)
        ensures
            t.wf(),
            t@ == TextState::initial(id@, label@),
    {
        let t = Self {
            id: String::from_str(id),
            label: String::from_str(label),
            value: String::new(),
            cursor_position: 0,
            placeholder: None,
            required: false,
            validators: Vec::new(),
            validation_errors: Vec::new(),
        };
        proof {
            lemma_offset_ends(t.value@);
            lemma_offset_is_boundary(t.value@, 0);
            assert(failures_of(t.validation_errors@) =~= Seq::<Failure>::empty());
        }
        t
    }

    /// Sets a placeholder text.
    pub fn placeholder(self, placeholder: &str) -> (t: Self)
        requires
            self.wf(),
        ensures
            t.wf(),
            t@ == (TextState { placeholder: Some(placeholder@), ..self@ }),
    {
        let mut t = self;
        t.placeholder = Some(String::from_str(placeholder));
        t
    }

    /// Marks this field as required.
    pub fn required(self) -> (t: Self)
        requires
            self.wf(),
        ensures
            t.wf(),
            t@ == (TextState { required: true, ..self@ }),
    {
        let mut t = self;
        t.required = true;
        t
    }

    /// Adds a validator to this field.
    pub fn validator(self, validator: Rule) -> (t: Self)
        requires
            self.wf(),
        ensures
            t.wf(),
            t@ == (TextState { rules: self@.rules.push(validator), ..self@ }),
    {
        let mut t = self;
        t.validators.push(validator);
        t
    }

    /// Sets the initial value, with the cursor behind it.
    pub fn initial_value(self, value: &str) -> (t: Self)
        requires
            self.wf(),
        ensures
            t.wf(),
            t@ == (TextState { text: value@, cursor: value@.len(), ..self@ }),
    {
        let mut t = self;
        t.value = String::from_str(value);
        t.cursor_position = byte_len(t.value.as_str());
        proof {
            lemma_offset_ends(t.value@);
            lemma_offset_is_boundary(t.value@, t.value@.len() as int);
        }
        t
    }

    /// The content of the line.
    pub fn text(&self) -> (s: &str)
        ensures
            s@ == self@.text,
    {
        self.value.as_str()
    }

    /// The cursor as a byte offset into the content. It always lies on a
    /// character boundary.
    pub fn cursor_position(&self) -> (offset: usize)
        requires
            self.wf(),
        ensures
            self@.valid(),
            offset == self@.offset(),
            on_boundary(self@.text, offset as int),
    {
        proof {
            lemma_boundary_is_offset(self.value@, self.cursor_position as int);
        }
        self.cursor_position
    }

    /// The placeholder, if one was set.
    pub fn placeholder_text(&self) -> (p: Option<&str>)
        ensures
            match p {
                Some(s) => self@.placeholder == Some(s@),
                None => self@.placeholder is None,
            },
    {
        match &self.placeholder {
            Some(s) => Some(s.as_str()),
            None => None,
        }
    }

    /// The label as it is shown: with a star where the input is required,
    /// and a colon.
    pub fn caption(&self) -> (caption: String)
        ensures
            caption@ == caption_of(self@.label, self@.required, ": "@),
    {
        make_caption(self.label.as_str(), self.required, ": ")
    }

    /// The text that the input shows.
    pub fn display_text(&self) -> (s: &str)
        ensures
            s@ == self@.shown_text(),
    {
        match &self.placeholder {
            Some(p) if self.value.as_str().is_empty() => p.as_str(),
            _ => {
                assert(self.value@.len() == 0 ==> self.value@ =~= Seq::<char>::empty());
                self.value.as_str()
            },
        }
    }

    /// Whether the text that the input shows is its placeholder.
    pub fn shows_placeholder(&self) -> (b: bool)
        ensures
            b == self@.shows_placeholder(),
    {
        self.value.as_str().is_empty() && self.placeholder.is_some()
    }

    /// The column of the cursor within the content: the displayed width of
    /// the text before it.
    pub fn cursor_column(&self) -> (column: usize)
        requires
            self.wf(),
        ensures
            column == text_width(self@.text.take(self@.cursor as int)),
    {
        display_width(prefix_before(self.value.as_str(), self.cursor_position))
    }

    /// The errors kept for display.
    pub fn shown_errors(&self) -> (errors: &Vec<ValidationError>)
        ensures
            failures_of(errors@) == self@.shown_errors,
    {
        &self.validation_errors
    }

    /// Puts `c` in at the cursor and moves the cursor behind it.
    pub fn insert_char(&mut self, c: char)
        requires
            old(self).wf(),
        ensures
            final(self).wf(),
            final(self)@ == old(self)@.insert(c),
    {
        let ghost before = self.value@;
        let ghost k = char_index(before, self.cursor_position as int);
        proof {
            lemma_boundary_is_offset(before, self.cursor_position as int);
        }
        insert_char_at(&mut self.value, self.cursor_position, c);
        let total: usize = byte_len(self.value.as_str());
        proof {
            let after = self.value@;
            assert(after.take(k + 1) =~= before.take(k) + seq![c]);
            lemma_encode_concat(before.take(k), seq![c]);
            lemma_width_bounds(c);
            lemma_offset_is_boundary(after, k + 1);
            assert(total >= self.cursor_position + width_of(c));
        }
        self.cursor_position = self.cursor_position + encoded_width(c);
    }

    /// Takes out the character before the cursor.
    pub fn delete_char_before_cursor(&mut self)
        requires
            old(self).wf(),
        ensures
            final(self).wf(),
            final(self)@ == old(self)@.backspace(),
    {
        let ghost before = self.value@;
        let ghost k = char_index(before, self.cursor_position as int);
        proof {
            lemma_boundary_is_offset(before, self.cursor_position as int);
            lemma_offset_ends(before);
        }
        if self.cursor_position > 0 {
            let p: usize = prev_boundary(self.value.as_str(), self.cursor_position);
            let _ = remove_char_at(&mut self.value, p);
            proof {
                let after = self.value@;
                assert(after.take(k - 1) =~= before.take(k - 1));
                lemma_offset_is_boundary(after, k - 1);
            }
            self.cursor_position = p;
        }
    }

    /// Takes out the character at the cursor.
    pub fn delete_char_at_cursor(&mut self)
        requires
            old(self).wf(),
        ensures
            final(self).wf(),
            final(self)@ == old(self)@.delete(),
    {
        let ghost before = self.value@;
        let ghost k = char_index(before, self.cursor_position as int);
        proof {
            lemma_boundary_is_offset(before, self.cursor_position as int);
            lemma_offset_ends(before);
            lemma_offset_monotonic(before, k, before.len() as int);
        }
        if self.cursor_position < byte_len(self.value.as_str()) {
            let _ = remove_char_at(&mut self.value, self.cursor_position);
            proof {
                let after = self.value@;
                assert(after.take(k) =~= before.take(k));
                lemma_offset_is_boundary(after, k);
            }
        }
    }

    /// Moves the cursor one character to the left.
    pub fn move_cursor_left(&mut self)
        requires
            old(self).wf(),
        ensures
            final(self).wf(),
            final(self)@ == old(self)@.left(),
    {
        proof {
            lemma_boundary_is_offset(self.value@, self.cursor_position as int);
            lemma_offset_ends(self.value@);
        }
        if self.cursor_position > 0 {
            self.cursor_position = prev_boundary(self.value.as_str(), self.cursor_position);
        }
    }

    /// Moves the cursor one character to the right.
    pub fn move_cursor_right(&mut self)
        requires
            old(self).wf(),
        ensures
            final(self).wf(),
            final(self)@ == old(self)@.right(),
    {
        proof {
            let k = char_index(self.value@, self.cursor_position as int);
            lemma_boundary_is_offset(self.value@, self.cursor_position as int);
            lemma_offset_ends(self.value@);
            lemma_offset_monotonic(self.value@, k, self.value@.len() as int);
        }
        if self.cursor_position < byte_len(self.value.as_str()) {
            self.cursor_position = next_boundary(self.value.as_str(), self.cursor_position);
        }
    }

    /// Moves the cursor to the start.
    pub fn move_cursor_home(&mut self)
        requires
            old(self).wf(),
        ensures
            final(self).wf(),
            final(self)@ == old(self)@.home(),
    {
        proof {
            lemma_offset_ends(self.value@);
            lemma_offset_is_boundary(self.value@, 0);
        }
        self.cursor_position = 0;
    }

    /// Moves the cursor to the end.
    pub fn move_cursor_end(&mut self)
        requires
            old(self).wf(),
        ensures
            final(self).wf(),
            final(self)@ == old(self)@.end(),
    {
        proof {
            lemma_offset_ends(self.value@);
            lemma_offset_is_boundary(self.value@, self.value@.len() as int);
        }
        self.cursor_position = byte_len(self.value.as_str());
    }

    /// Empties the line.
    pub fn clear_line(&mut self)
        requires
            old(self).wf(),
        ensures
            final(self).wf(),
            final(self)@ == old(self)@.clear(),
    {
        self.value = String::new();
        self.cursor_position = 0;
        proof {
            lemma_offset_ends(self.value@);
            lemma_offset_is_boundary(self.value@, 0);
        }
    }
}

impl Field for TextInput {
    closed spec fn wf(&self) -> bool {
        on_boundary(self.value@, self.cursor_position as int)
    }

    open spec fn id_text(&self) -> Seq<char> {
        self@.id
    }

    open spec fn label_text(&self) -> Seq<char> {
        self@.label
    }

    open spec fn required_flag(&self) -> bool {
        self@.required
    }

    open spec fn rows(&self) -> nat {
        if self@.shown_errors.len() == 0 {
            1
        } else {
            2
        }
    }

    open spec fn value_tree(&self) -> ValueTree {
        ValueTree::String(self@.text)
    }

    open spec fn failures(&self) -> Seq<Failure> {
        self@.failures()
    }

    fn id(&self) -> (r: &str) {
        self.id.as_str()
    }

    fn label(&self) -> (r: &str) {
        self.label.as_str()
    }

    fn handle_input(&mut self, event: &KeyEvent) -> (consumed: bool)
        ensures
            final(self)@ == old(self)@.apply(*event),
            consumed == old(self)@.consumes(*event),
    {
        match event.code {
            KeyCode::Char(c) => {
                if event.modifiers.control {
                    if c == 'a' {
                        self.move_cursor_home();
                    } else if c == 'e' {
                        self.move_cursor_end();
                    } else if c == 'u' {
                        self.clear_line();
                    } else {
                        return false;
                    }
                } else {
                    self.insert_char(c);
                }
                true
            },
            KeyCode::Backspace => {
                self.delete_char_before_cursor();
                true
            },
            KeyCode::Delete => {
                self.delete_char_at_cursor();
                true
            },
            KeyCode::Left => {
                self.move_cursor_left();
                true
            },
            KeyCode::Right => {
                self.move_cursor_right();
                true
            },
            KeyCode::Home => {
                self.move_cursor_home();
                true
            },
            KeyCode::End => {
                self.move_cursor_end();
                true
            },
            _ => false,
        }
    }

    fn value(&self) -> (v: serde_json::Value) {
        string_value(self.value.clone())
    }

    fn validate(&self) -> (r: Result<(), Vec<ValidationError>>) {
        let mut errors: Vec<ValidationError> = Vec::new();
        if self.required && is_blank(self.value.as_str()) {
            errors.push(
                ValidationError {
                    field_id: self.id.clone(),
                    message: joined(self.label.as_str(), " is required"),
                },
            );
        }
        assert(failures_of(errors@) =~= self@.required_failure());
        let mut i: usize = 0;
        while i < self.validators.len()
            invariant
                i <= self.validators.len(),
                failures_of(errors@) == self@.required_failure() + rule_failures(
                    self.id@,
                    self.validators@.take(i as int),
                    self.value@,
                ),
            decreases self.validators.len() - i,
        {
            let ghost before = errors@;
            assert(self.validators@.take(i + 1).drop_last() =~= self.validators@.take(i as int));
            match self.validators[i].validate(self.value.as_str()) {
                Ok(_) => {},
                Err(message) => {
                    errors.push(ValidationError { field_id: self.id.clone(), message });
                    assert(failures_of(errors@) =~= failures_of(before).push(errors@.last()@));
                },
            }
            assert(failures_of(errors@) =~= self@.required_failure() + rule_failures(
                self.id@,
                self.validators@.take(i + 1),
                self.value@,
            ));
            i = i + 1;
        }
        assert(self.validators@.take(self.validators@.len() as int) =~= self.validators@);
        if errors.len() == 0 {
            Ok(())
        } else {
            Err(errors)
        }
    }

    fn height(&self) -> (h: u16) {
        if self.validation_errors.len() == 0 {
            1
        } else {
            2
        }
    }

    fn is_required(&self) -> (b: bool) {
        self.required
    }
}

/// The cursor of a text input always stands on a character boundary of its
/// content: every key keeps the cursor within the line, and the byte offset of
/// a cursor within the line is a boundary of the encoded content.
pub proof fn lemma_cursor_stays_on_boundary(s: TextState, events: Seq<KeyEvent>)
    requires
        s.valid(),
    ensures
        s.run(events).valid(),
        on_boundary(s.run(events).text, s.run(events).offset() as int),
    decreases events.len(),
{
    if events.len() > 0 {
        lemma_cursor_stays_on_boundary(s, events.drop_last());
    }
    let r = s.run(events);
    lemma_offset_is_boundary(r.text, r.cursor as int);
}

} // verus!
