//! Address composite block.

use crate::block::{field_id_of, join_id, lemma_field_ids_differ, Block, BlockState};
use crate::field::select::{Select, SelectState};
use crate::field::text::{TextInput, TextState};
use crate::field::{all_wf, states_of, Field, FieldState, FormField};
use crate::form::{distinct_ids, export, lemma_export_of_distinct_ids, members_by_field};
use crate::strings::joined;
use crate::validation::rules::{compiles, zip_pattern, Pattern, PatternError, Rule};
use vstd::prelude::*;

verus! {

/// The US states and the federal district: abbreviation and name.
pub const US_STATES: [(&'static str, &'static str); 51] = [
    ("AL", "Alabama"),
    ("AK", "Alaska"),
    ("AZ", "Arizona"),
    ("AR", "Arkansas"),
    ("CA", "California"),
    ("CO", "Colorado"),
    ("CT", "Connecticut"),
    ("DE", "Delaware"),
    ("FL", "Florida"),
    ("GA", "Georgia"),
    ("HI", "Hawaii"),
    ("ID", "Idaho"),
    ("IL", "Illinois"),
    ("IN", "Indiana"),
    ("IA", "Iowa"),
    ("KS", "Kansas"),
    ("KY", "Kentucky"),
    ("LA", "Louisiana"),
    ("ME", "Maine"),
    ("MD", "Maryland"),
    ("MA", "Massachusetts"),
    ("MI", "Michigan"),
    ("MN", "Minnesota"),
    ("MS", "Mississippi"),
    ("MO", "Missouri"),
    ("MT", "Montana"),
    ("NE", "Nebraska"),
    ("NV", "Nevada"),
    ("NH", "New Hampshire"),
    ("NJ", "New Jersey"),
    ("NM", "New Mexico"),
    ("NY", "New York"),
    ("NC", "North Carolina"),
    ("ND", "North Dakota"),
    ("OH", "Ohio"),
    ("OK", "Oklahoma"),
    ("OR", "Oregon"),
    ("PA", "Pennsylvania"),
    ("RI", "Rhode Island"),
    ("SC", "South Carolina"),
    ("SD", "South Dakota"),
    ("TN", "Tennessee"),
    ("TX", "Texas"),
    ("UT", "Utah"),
    ("VT", "Vermont"),
    ("VA", "Virginia"),
    ("WA", "Washington"),
    ("WV", "West Virginia"),
    ("WI", "Wisconsin"),
    ("WY", "Wyoming"),
    ("DC", "District of Columbia"),
];

/// The option of a state: its abbreviation as the value, and for display its
/// name with the abbreviation in brackets.
pub open spec fn state_option(state: (&'static str, &'static str)) -> (Seq<char>, Seq<char>) {
    (state.0@, state.1@ + " ("@ + state.0@ + ")"@)
}

/// The options of the state select, one for each entry of the table.
pub open spec fn state_options() -> Seq<(Seq<char>, Seq<char>)> {
    US_STATES@.map_values(|state: (&'static str, &'static str)| state_option(state))
}

/// An empty text input with a placeholder.
pub open spec fn text_input(
    id: Seq<char>,
    label: Seq<char>,
    placeholder: Seq<char>,
    required: bool,
    rules: Seq<Rule>,
) -> TextState {
    TextState { placeholder: Some(placeholder), required, rules, ..TextState::initial(id, label) }
}

/// A closed select over the states, with nothing chosen.
pub open spec fn state_select(id: Seq<char>, required: bool) -> SelectState {
    SelectState { options: state_options(), required, ..SelectState::initial(id, "State"@) }
}

/// Makes an empty text input with a placeholder and no validator.
pub fn make_text_input(id: &str, label: &str, placeholder: &str, required: bool) -> (t: TextInput)
    ensures
        t.wf(),
        t@ == text_input(id@, label@, placeholder@, required, Seq::empty()),
{
    let t = TextInput::new(id, label).placeholder(placeholder);
    if required {
        t.required()
    } else {
        t
    }
}

fn make_state_select(id: &str, required: bool) -> (s: Select)
    ensures
        s.wf(),
        s@ == state_select(id@, required),
{
    let mut state = Select::new(id, "State");
    let mut i: usize = 0;
    assert(state_options().take(0) =~= Seq::empty());
    while i < 51
        invariant
            i <= 51,
            state.wf(),
            state@ == (SelectState {
                options: state_options().take(i as int),
                ..SelectState::initial(id@, "State"@)
            }),
        decreases 51 - i,
    {
        let abbr = US_STATES[i].0;
        let name = US_STATES[i].1;
        let mut display = joined(name, " (");
        display.append(abbr);
        display.append(")");
        state = state.option(abbr, display.as_str());
        assert(state_options().take(i + 1) =~= state_options().take(i as int).push(
            state_option(US_STATES@[i as int]),
        ));
        i = i + 1;
    }
    assert(state_options().take(51) =~= state_options());
    if required {
        state.required()
    } else {
        state
    }
}

/// A composite block for US addresses.
pub struct AddressBlock {
    prefix: String,
    title: Option<String>,
    required: bool,
}

impl View for AddressBlock {
    type V = BlockState;

    closed spec fn view(&self) -> BlockState {
        BlockState {
            prefix: self.prefix@,
            title: match self.title {
                Some(t) => Some(t@),
                None => None,
            },
            required: self.required,
        }
    }
}

impl AddressBlock {
    /// Creates a new address block with the given prefix.
    pub fn new(prefix: &str) -> (b: Self)
        ensures
            b@ == (BlockState { prefix: prefix@, title: None, required: false }),
    {
        Self { prefix: String::from_str(prefix), title: None, required: false }
    }

    /// Sets the block title.
    pub fn title(self, title: &str) -> (b: Self)
        ensures
            b@ == (BlockState { title: Some(title@), ..self@ }),
    {
        let mut b = self;
        b.title = Some(String::from_str(title));
        b
    }

    /// Marks all fields in this block as required.
    pub fn required(self) -> (b: Self)
        ensures
            b@ == (BlockState { required: true, ..self@ }),
    {
        let mut b = self;
        b.required = true;
        b
    }

    /// The id of the field `name` of this block.
    pub fn field_id(&self, name: &str) -> (id: String)
        ensures
            id@ == field_id_of(self@.prefix, name@),
    {
        join_id(self.prefix.as_str(), name)
    }

    /// The fields of the block: two street lines, of which the second is
    /// always optional, the city, the state and the ZIP code.
    pub open spec fn field_states(&self, zip: Pattern) -> Seq<FieldState> {
        let prefix = self@.prefix;
        let required = self@.required;
        seq![
            FieldState::Text(
                text_input(
                    field_id_of(prefix, "street1"@),
                    "Street Address"@,
                    "123 Main St"@,
                    required,
                    Seq::empty(),
                ),
            ),
            FieldState::Text(
                text_input(
                    field_id_of(prefix, "street2"@),
                    "Address Line 2"@,
                    "Apt, Suite, Unit, etc. (optional)"@,
                    false,
                    Seq::empty(),
                ),
            ),
            FieldState::Text(
                text_input(field_id_of(prefix, "city"@), "City"@, "City"@, required, Seq::empty()),
            ),
            FieldState::Select(state_select(field_id_of(prefix, "state"@), required)),
            FieldState::Text(
                text_input(
                    field_id_of(prefix, "zip"@),
                    "ZIP Code"@,
                    "12345 or 12345-6789"@,
                    required,
                    seq![Rule::Pattern(zip)],
                ),
            ),
        ]
    }

    /// The fields of the block, with the rule of the ZIP code given.
    pub fn fields_with(&self, zip: Pattern) -> (fields: Vec<FormField>)
        ensures
            all_wf(fields@),
            states_of(fields@) == self.field_states(zip),
    {
        let mut fields: Vec<FormField> = Vec::new();

        let street1_id = self.field_id("street1");
        let street1 = make_text_input(
            street1_id.as_str(),
            "Street Address",
            "123 Main St",
            self.required,
        );
        fields.push(FormField::Text(street1));

        let street2_id = self.field_id("street2");
        let street2 = make_text_input(
            street2_id.as_str(),
            "Address Line 2",
            "Apt, Suite, Unit, etc. (optional)",
            false,
        );
        fields.push(FormField::Text(street2));

        let city_id = self.field_id("city");
        let city = make_text_input(city_id.as_str(), "City", "City", self.required);
        fields.push(FormField::Text(city));

        let state_id = self.field_id("state");
        let state = make_state_select(state_id.as_str(), self.required);
        fields.push(FormField::Select(state));

        let zip_id = self.field_id("zip");
        let mut zip_field = TextInput::new(zip_id.as_str(), "ZIP Code").placeholder(
            "12345 or 12345-6789",
        ).validator(Rule::Pattern(zip));
        if self.required {
            zip_field = zip_field.required();
        }
        assert(Seq::<Rule>::empty().push(Rule::Pattern(zip)) =~= seq![Rule::Pattern(zip)]);
        fields.push(FormField::Text(zip_field));

        assert(states_of(fields@) =~= self.field_states(zip));
        fields
    }
}

impl Block for AddressBlock {
    open spec fn prefix_text(&self) -> Seq<char> {
        self@.prefix
    }

    open spec fn title_text(&self) -> Option<Seq<char>> {
        self@.title
    }

    open spec fn produces(&self, fields: Seq<FieldState>) -> bool {
        exists|zip: Pattern|
            zip.made_from(zip_pattern(), "Invalid ZIP code format"@) && fields
                == self.field_states(zip)
    }

    open spec fn expands(&self) -> bool {
        compiles(zip_pattern())
    }

    open spec fn fails_with(&self, error: PatternError) -> bool {
        error.pattern@ == zip_pattern()
    }

    fn prefix(&self) -> (r: &str) {
        self.prefix.as_str()
    }

    fn title(&self) -> (r: Option<&str>) {
        match &self.title {
            Some(t) => Some(t.as_str()),
            None => None,
        }
    }

    fn fields(&self) -> (r: Result<Vec<FormField>, PatternError>) {
        match Pattern::zip_code() {
            Ok(zip) => Ok(self.fields_with(zip)),
            Err(e) => Err(e),
        }
    }
}

/// The names of the fields of an address block, in the order of the fields.
pub open spec fn address_field_names() -> Seq<Seq<char>> {
    seq!["street1"@, "street2"@, "city"@, "state"@, "zip"@]
}

/// An address block gives its five fields the ids of its prefix with their
/// names, and no two of these ids are the same.
pub proof fn lemma_address_field_ids(block: AddressBlock, zip: Pattern)
    ensures
        block.field_states(zip).len() == 5,
        forall|i: int|
            0 <= i < 5 ==> (#[trigger] block.field_states(zip)[i]).id() == field_id_of(
                block@.prefix,
                address_field_names()[i],
            ),
        distinct_ids(block.field_states(zip)),
{
    reveal_strlit("street1");
    reveal_strlit("street2");
    reveal_strlit("city");
    reveal_strlit("state");
    reveal_strlit("zip");
    let names = address_field_names();
    let states = block.field_states(zip);
    assert("street1"@[6] != "street2"@[6]);
    assert forall|a: int, b: int| 0 <= a < b < states.len() implies (#[trigger] states[a]).id() != (
    #[trigger] states[b]).id() by {
        assert(names[a] != names[b]) by {
            if names[a].len() == names[b].len() {
                if a == 0 {
                    assert(names[a][6] != names[b][6]);
                } else {
                    assert(names[a][0] != names[b][0]);
                }
            }
        }
        lemma_field_ids_differ(block@.prefix, names[a], names[b]);
    }
}

/// Round trip: whatever the five fields of an address block hold by the time
/// of the export, the exported object holds the value of each under its id,
/// in the order of the fields.
pub proof fn lemma_address_export(block: AddressBlock, zip: Pattern, fields: Seq<FieldState>)
    requires
        fields.len() == 5,
        forall|i: int| 0 <= i < 5 ==> (#[trigger] fields[i]).id() == block.field_states(zip)[i].id(),
    ensures
        export(fields) == seq![
            (field_id_of(block@.prefix, "street1"@), fields[0].value()),
            (field_id_of(block@.prefix, "street2"@), fields[1].value()),
            (field_id_of(block@.prefix, "city"@), fields[2].value()),
            (field_id_of(block@.prefix, "state"@), fields[3].value()),
            (field_id_of(block@.prefix, "zip"@), fields[4].value()),
        ],
{
    lemma_address_field_ids(block, zip);
    let states = block.field_states(zip);
    assert forall|a: int, b: int| 0 <= a < b < fields.len() implies (#[trigger] fields[a]).id() != (
    #[trigger] fields[b]).id() by {
        assert(states[a].id() != states[b].id());
    }
    lemma_export_of_distinct_ids(fields);
    assert(members_by_field(fields) =~= seq![
        (field_id_of(block@.prefix, "street1"@), fields[0].value()),
        (field_id_of(block@.prefix, "street2"@), fields[1].value()),
        (field_id_of(block@.prefix, "city"@), fields[2].value()),
        (field_id_of(block@.prefix, "state"@), fields[3].value()),
        (field_id_of(block@.prefix, "zip"@), fields[4].value()),
    ]);
}

} // verus!
