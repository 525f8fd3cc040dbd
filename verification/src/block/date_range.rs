//! Date range composite block.

use crate::block::{field_id_of, join_id, Block, BlockState};
use crate::event::KeyEvent;
use crate::field::text::{TextInput, TextState};
use crate::field::{all_wf, states_of, Field, FieldState, FormField};
use crate::strings::{lex_less, lex_lt};
use crate::validation::rules::{compiles, date_pattern, Pattern, PatternError, Rule};
use crate::validation::{failures_of, Failure, ValidationError};
use crate::value::{
    has_key, insert_member, lemma_first_from, map_insert, members_of, new_map, object_value,
    ValueTree,
};
use vstd::prelude::*;

verus! {

/// A date input as the date range block and field make it: optional or
/// required, empty, with the placeholder of the date format and the date rule.
pub open spec fn date_input(
    id: Seq<char>,
    label: Seq<char>,
    required: bool,
    rule: Pattern,
) -> TextState {
    TextState {
        placeholder: Some("YYYY-MM-DD"@),
        required,
        rules: seq![Rule::Pattern(rule)],
        ..TextState::initial(id, label)
    }
}

fn make_date_input(id: &str, label: &str, required: bool, rule: Pattern) -> (t: TextInput)
    ensures
        t.wf(),
        t@ == date_input(id@, label@, required, rule),
{
    let t = TextInput::new(id, label).placeholder("YYYY-MM-DD").validator(Rule::Pattern(rule));
    assert(Seq::<Rule>::empty().push(Rule::Pattern(rule)) =~= seq![Rule::Pattern(rule)]);
    if required {
        t.required()
    } else {
        t
    }
}

/// Whether `rule` is the date rule: the date pattern with its message.
pub open spec fn is_date_rule(rule: Pattern) -> bool {
    rule.made_from(date_pattern(), "Invalid date format (use YYYY-MM-DD)"@)
}

/// A composite block for date ranges (start date and end date).
pub struct DateRangeBlock {
    prefix: String,
    title: Option<String>,
    required: bool,
}

impl View for DateRangeBlock {
    type V = BlockState;

    closed spec fn view(&self) -> BlockState {
        BlockState {
            prefix: self.prefix@,
            title: match self.title {
                Some(t) => Some(t@),
                None => None,
            },
            required: self.required,
        }
    }
}

impl DateRangeBlock {
    /// Creates a new date range block with the given prefix.
    pub fn new(prefix: &str) -> (b: Self)
        ensures
            b@ == (BlockState { prefix: prefix@, title: None, required: false }),
    {
        Self { prefix: String::from_str(prefix), title: None, required: false }
    }

    /// Sets the block title.
    pub fn title(self, title: &str) -> (b: Self)
        ensures
            b@ == (BlockState { title: Some(title@), ..self@ }),
    {
        let mut b = self;
        b.title = Some(String::from_str(title));
        b
    }

    /// Marks all fields in this block as required.
    pub fn required(self) -> (b: Self)
        ensures
            b@ == (BlockState { required: true, ..self@ }),
    {
        let mut b = self;
        b.required = true;
        b
    }

    /// The id of the field `name` of this block.
    pub fn field_id(&self, name: &str) -> (id: String)
        ensures
            id@ == field_id_of(self@.prefix, name@),
    {
        join_id(self.prefix.as_str(), name)
    }

    /// The fields of the block: a start date and an end date.
    pub open spec fn field_states(&self, start: Pattern, end: Pattern) -> Seq<FieldState> {
        seq![
            FieldState::Text(
                date_input(
                    field_id_of(self@.prefix, "start"@),
                    "Start Date"@,
                    self@.required,
                    start,
                ),
            ),
            FieldState::Text(
                date_input(field_id_of(self@.prefix, "end"@), "End Date"@, self@.required, end),
            ),
        ]
    }

    /// The fields of the block, with the date rules given.
    pub fn fields_with(&self, start: Pattern, end: Pattern) -> (fields: Vec<FormField>)
        ensures
            all_wf(fields@),
            states_of(fields@) == self.field_states(start, end),
    {
        let mut fields: Vec<FormField> = Vec::new();
        let start_id = self.field_id("start");
        fields.push(
            FormField::Text(make_date_input(start_id.as_str(), "Start Date", self.required, start)),
        );
        let end_id = self.field_id("end");
        fields.push(
            FormField::Text(make_date_input(end_id.as_str(), "End Date", self.required, end)),
        );
        assert(states_of(fields@) =~= self.field_states(start, end));
        fields
    }
}

impl Block for DateRangeBlock {
    open spec fn prefix_text(&self) -> Seq<char> {
        self@.prefix
    }

    open spec fn title_text(&self) -> Option<Seq<char>> {
        self@.title
    }

    open spec fn produces(&self, fields: Seq<FieldState>) -> bool {
        exists|start: Pattern, end: Pattern|
            is_date_rule(start) && is_date_rule(end) && fields == self.field_states(start, end)
    }

    open spec fn fails_with(&self, error: PatternError) -> bool {
        error.pattern@ == date_pattern()
    }

    open spec fn expands(&self) -> bool {
        compiles(date_pattern())
    }

    fn prefix(&self) -> (r: &str) {
        self.prefix.as_str()
    }

    fn title(&self) -> (r: Option<&str>) {
        match &self.title {
            Some(t) => Some(t.as_str()),
            None => None,
        }
    }

    fn fields(&self) -> (r: Result<Vec<FormField>, PatternError>) {
        let start = match Pattern::date() {
            Ok(p) => p,
            Err(e) => {
                return Err(e);
            },
        };
        let end = match Pattern::date() {
            Ok(p) => p,
            Err(e) => {
                return Err(e);
            },
        };
        Ok(self.fields_with(start, end))
    }
}

/// The state of a date range field: two date inputs and the side that has the
/// focus, 0 for the start and anything else for the end.
pub struct DateRangeState {
    pub prefix: Seq<char>,
    pub start: TextState,
    pub end: TextState,
    pub focused_side: nat,
}

impl DateRangeState {
    /// Whether the field takes the key: the focused side decides.
    pub open spec fn consumes(self, event: KeyEvent) -> bool {
        if self.focused_side == 0 {
            self.start.consumes(event)
        } else {
            self.end.consumes(event)
        }
    }

    /// The state after the key, which goes to the focused side.
    pub open spec fn apply(self, event: KeyEvent) -> DateRangeState {
        if self.focused_side == 0 {
            DateRangeState { start: self.start.apply(event), ..self }
        } else {
            DateRangeState { end: self.end.apply(event), ..self }
        }
    }

    /// The order of the two dates is checked only when both sides are filled:
    /// an end that comes before the start fails, at the end field.
    pub open spec fn range_failure(self) -> Seq<Failure> {
        if self.start.text.len() > 0 && self.end.text.len() > 0 && lex_lt(
            self.end.text,
            self.start.text,
        ) {
            seq![
                Failure {
                    field_id: field_id_of(self.prefix, "end"@),
                    message: "End date must be on or after start date"@,
                },
            ]
        } else {
            Seq::empty()
        }
    }

    /// The failures of the start, those of the end, then that of the range.
    pub open spec fn failures(self) -> Seq<Failure> {
        self.start.failures() + self.end.failures() + self.range_failure()
    }

    /// The two dates as an object with the members `start` and `end`.
    pub open spec fn value(self) -> ValueTree {
        ValueTree::Object(
            seq![
                ("start"@, ValueTree::String(self.start.text)),
                ("end"@, ValueTree::String(self.end.text)),
            ],
        )
    }
}

/// A date range field that validates end >= start.
pub struct DateRangeField {
    start_field: TextInput,
    end_field: TextInput,
    prefix: String,
    current_focus: usize,
}

impl View for DateRangeField {
    type V = DateRangeState;

    closed spec fn view(&self) -> DateRangeState {
        DateRangeState {
            prefix: self.prefix@,
            start: self.start_field@,
            end: self.end_field@,
            focused_side: self.current_focus as nat,
        }
    }
}

impl DateRangeField {
    /// The state of a fresh date range field with the date rules given.
    pub open spec fn initial(
        prefix: Seq<char>,
        required: bool,
        start: Pattern,
        end: Pattern,
    ) -> DateRangeState {
        DateRangeState {
            prefix,
            start: date_input(field_id_of(prefix, "start"@), "Start Date"@, required, start),
            end: date_input(field_id_of(prefix, "end"@), "End Date"@, required, end),
            focused_side: 0,
        }
    }

    /// Creates a date range field with the date rules given.
    pub fn with_rules(prefix: &str, required: bool, start: Pattern, end: Pattern) -> (f: Self)
        ensures
            f.wf(),
            f@ == Self::initial(prefix@, required, start, end),
    {
        let start_id = join_id(prefix, "start");
        let end_id = join_id(prefix, "end");
        Self {
            start_field: make_date_input(start_id.as_str(), "Start Date", required, start),
            end_field: make_date_input(end_id.as_str(), "End Date", required, end),
            prefix: String::from_str(prefix),
            current_focus: 0,
        }
    }

    /// Creates a new date range field.
    ///
    /// The date pattern is compiled twice, once for each side. The field is
    /// made exactly when the pattern compiles; else the error holds it.
    pub fn new(prefix: &str, required: bool) -> (r: Result<Self, PatternError>)
        ensures
            r is Ok <==> compiles(date_pattern()),
            match r {
                Ok(f) => f.wf() && exists|start: Pattern, end: Pattern|
                    is_date_rule(start) && is_date_rule(end) && f@ == Self::initial(
                        prefix@,
                        required,
                        start,
                        end,
                    ),
                Err(e) => e.pattern@ == date_pattern(),
            },
    {
        let start = match Pattern::date() {
            Ok(p) => p,
            Err(e) => {
                return Err(e);
            },
        };
        let end = match Pattern::date() {
            Ok(p) => p,
            Err(e) => {
                return Err(e);
            },
        };
        Ok(Self::with_rules(prefix, required, start, end))
    }

    /// Gives the focus to the start, for 0, or to the end, for anything else.
    pub fn set_focused_side(&mut self, side: usize)
        requires
            old(self).wf(),
        ensures
            final(self).wf(),
            final(self)@ == (DateRangeState { focused_side: side as nat, ..old(self)@ }),
    {
        self.current_focus = side;
    }

    /// The side that has the focus.
    pub fn focused_side(&self) -> (side: usize)
        ensures
            side == self@.focused_side,
    {
        self.current_focus
    }

    /// The input of the start date.
    pub fn start(&self) -> (t: &TextInput)
        requires
            self.wf(),
        ensures
            t.wf(),
            t@ == self@.start,
    {
        &self.start_field
    }

    /// The input of the end date.
    pub fn end(&self) -> (t: &TextInput)
        requires
            self.wf(),
        ensures
            t.wf(),
            t@ == self@.end,
    {
        &self.end_field
    }

    /// Checks the order of the two dates.
    pub fn validate_range(&self) -> (r: Result<(), ValidationError>)
        requires
            self.wf(),
        ensures
            match r {
                Ok(_) => self@.range_failure().len() == 0,
                Err(e) => self@.range_failure() == seq![e@],
            },
    {
        let start_value = self.start_field.text();
        let end_value = self.end_field.text();
        if start_value.is_empty() || end_value.is_empty() {
            return Ok(());
        }
        if lex_less(end_value, start_value) {
            Err(
                ValidationError {
                    field_id: join_id(self.prefix.as_str(), "end"),
                    message: String::from_str("End date must be on or after start date"),
                },
            )
        } else {
            Ok(())
        }
    }
}

impl Field for DateRangeField {
    closed spec fn wf(&self) -> bool {
        self.start_field.wf() && self.end_field.wf()
    }

    open spec fn id_text(&self) -> Seq<char> {
        self@.prefix
    }

    open spec fn label_text(&self) -> Seq<char> {
        "Date Range"@
    }

    open spec fn required_flag(&self) -> bool {
        false
    }

    open spec fn rows(&self) -> nat {
        2
    }

    open spec fn value_tree(&self) -> ValueTree {
        self@.value()
    }

    open spec fn failures(&self) -> Seq<Failure> {
        self@.failures()
    }

    fn id(&self) -> (r: &str) {
        self.prefix.as_str()
    }

    fn label(&self) -> (r: &str) {
        "Date Range"
    }

    fn handle_input(&mut self, event: &KeyEvent) -> (consumed: bool)
        ensures
            final(self)@ == old(self)@.apply(*event),
            consumed == old(self)@.consumes(*event),
    {
        if self.current_focus == 0 {
            self.start_field.handle_input(event)
        } else {
            self.end_field.handle_input(event)
        }
    }

    fn value(&self) -> (v: serde_json::Value) {
        let mut members = new_map();
        map_insert(&mut members, String::from_str("start"), self.start_field.value());
        map_insert(&mut members, String::from_str("end"), self.end_field.value());
        proof {
            reveal_strlit("start");
            reveal_strlit("end");
            let first = seq![("start"@, ValueTree::String(self@.start.text))];
            let none = Seq::<(Seq<char>, ValueTree)>::empty();
            lemma_first_from(has_key(none, "start"@), 0, 0, 0);
            assert(insert_member(none, "start"@, ValueTree::String(self@.start.text)) =~= first);
            assert("start"@.len() != "end"@.len());
            assert(!has_key(first, "end"@)(0));
            lemma_first_from(has_key(first, "end"@), 0, 1, 1);
            assert(members_of(members) =~= seq![
                ("start"@, ValueTree::String(self@.start.text)),
                ("end"@, ValueTree::String(self@.end.text)),
            ]);
        }
        object_value(members)
    }

    fn validate(&self) -> (r: Result<(), Vec<ValidationError>>) {
        let mut errors: Vec<ValidationError> = Vec::new();
        assert(failures_of(errors@) =~= Seq::<Failure>::empty());
        match self.start_field.validate() {
            Ok(_) => {},
            Err(mut e) => {
                assert(failures_of(errors@ + e@) =~= failures_of(errors@) + failures_of(e@));
                errors.append(&mut e);
            },
        }
        assert(failures_of(errors@) =~= self@.start.failures());
        match self.end_field.validate() {
            Ok(_) => {},
            Err(mut e) => {
                assert(failures_of(errors@ + e@) =~= failures_of(errors@) + failures_of(e@));
                errors.append(&mut e);
            },
        }
        assert(failures_of(errors@) =~= self@.start.failures() + self@.end.failures());
        match self.validate_range() {
            Ok(_) => {},
            Err(e) => {
                assert(failures_of(errors@.push(e)) =~= failures_of(errors@).push(e@));
                errors.push(e);
            },
        }
        assert(failures_of(errors@) =~= self@.failures());
        if errors.len() == 0 {
            Ok(())
        } else {
            Err(errors)
        }
    }

    fn height(&self) -> (h: u16) {
        2
    }

    fn is_required(&self) -> (b: bool) {
        false
    }
}

/// An end date before the start date is one failure, tagged to the end field,
/// when both dates pass their own validation.
pub proof fn lemma_reversed_range_fails_once(s: DateRangeState)
    requires
        s.start.failures().len() == 0,
        s.end.failures().len() == 0,
        s.start.text.len() > 0,
        s.end.text.len() > 0,
        lex_lt(s.end.text, s.start.text),
    ensures
        s.failures().len() == 1,
        s.failures()[0].field_id == field_id_of(s.prefix, "end"@),
{
}

/// A range with an empty side is incomplete, not invalid: the order of the
/// dates is not checked.
pub proof fn lemma_incomplete_range_is_unchecked(s: DateRangeState)
    requires
        s.start.text.len() == 0 || s.end.text.len() == 0,
    ensures
        s.range_failure().len() == 0,
        s.failures() == s.start.failures() + s.end.failures(),
{
    assert(s.failures() =~= s.start.failures() + s.end.failures());
}

/// A range in order, or with equal dates, has no failure of its own.
pub proof fn lemma_ordered_range_passes(s: DateRangeState)
    requires
        !lex_lt(s.end.text, s.start.text),
    ensures
        s.range_failure().len() == 0,
{
}

} // verus!
