//! Contact information composite block.

use crate::block::address::{make_text_input, text_input};
use crate::block::{field_id_of, join_id, Block, BlockState};
use crate::field::text::TextInput;
use crate::field::{all_wf, states_of, Field, FieldState, FormField};
use crate::validation::rules::{compiles, phone_pattern, Email, Pattern, PatternError, Rule};
use vstd::prelude::*;

verus! {

/// A composite block for contact information.
pub struct ContactBlock {
    prefix: String,
    title: Option<String>,
    required: bool,
}

impl View for ContactBlock {
    type V = BlockState;

    closed spec fn view(&self) -> BlockState {
        BlockState {
            prefix: self.prefix@,
            title: match self.title {
                Some(t) => Some(t@),
                None => None,
            },
            required: self.required,
        }
    }
}

impl ContactBlock {
    /// Creates a new contact block with the given prefix.
    pub fn new(prefix: &str) -> (b: Self)
        ensures
            b@ == (BlockState { prefix: prefix@, title: None, required: false }),
    {
        Self { prefix: String::from_str(prefix), title: None, required: false }
    }

    /// Sets the block title.
    pub fn title(self, title: &str) -> (b: Self)
        ensures
            b@ == (BlockState { title: Some(title@), ..self@ }),
    {
        let mut b = self;
        b.title = Some(String::from_str(title));
        b
    }

    /// Marks all fields in this block as required.
    pub fn required(self) -> (b: Self)
        ensures
            b@ == (BlockState { required: true, ..self@ }),
    {
        let mut b = self;
        b.required = true;
        b
    }

    /// The id of the field `name` of this block.
    pub fn field_id(&self, name: &str) -> (id: String)
        ensures
            id@ == field_id_of(self@.prefix, name@),
    {
        join_id(self.prefix.as_str(), name)
    }

    /// The fields of the block: the name, the email address with its rule,
    /// and the phone number, which is always optional, with its rule.
    pub open spec fn field_states(&self, phone: Pattern) -> Seq<FieldState> {
        let prefix = self@.prefix;
        let required = self@.required;
        seq![
            FieldState::Text(
                text_input(
                    field_id_of(prefix, "name"@),
                    "Full Name"@,
                    "John Doe"@,
                    required,
                    Seq::empty(),
                ),
            ),
            FieldState::Text(
                text_input(
                    field_id_of(prefix, "email"@),
                    "Email"@,
                    "john@example.com"@,
                    required,
                    seq![Rule::Email(Email)],
                ),
            ),
            FieldState::Text(
                text_input(
                    field_id_of(prefix, "phone"@),
                    "Phone"@,
                    "(555) 123-4567"@,
                    false,
                    seq![Rule::Pattern(phone)],
                ),
            ),
        ]
    }

    /// The fields of the block, with the rule of the phone number given.
    pub fn fields_with(&self, phone: Pattern) -> (fields: Vec<FormField>)
        ensures
            all_wf(fields@),
            states_of(fields@) == self.field_states(phone),
    {
        let mut fields: Vec<FormField> = Vec::new();

        let name_id = self.field_id("name");
        let name = make_text_input(name_id.as_str(), "Full Name", "John Doe", self.required);
        fields.push(FormField::Text(name));

        let email_id = self.field_id("email");
        let mut email = TextInput::new(email_id.as_str(), "Email").placeholder(
            "john@example.com",
        ).validator(Rule::Email(Email));
        if self.required {
            email = email.required();
        }
        assert(Seq::<Rule>::empty().push(Rule::Email(Email)) =~= seq![Rule::Email(Email)]);
        fields.push(FormField::Text(email));

        let phone_id = self.field_id("phone");
        let phone_field = TextInput::new(phone_id.as_str(), "Phone").placeholder(
            "(555) 123-4567",
        ).validator(Rule::Pattern(phone));
        assert(Seq::<Rule>::empty().push(Rule::Pattern(phone)) =~= seq![Rule::Pattern(phone)]);
        fields.push(FormField::Text(phone_field));

        assert(states_of(fields@) =~= self.field_states(phone));
        fields
    }
}

impl Block for ContactBlock {
    open spec fn prefix_text(&self) -> Seq<char> {
        self@.prefix
    }

    open spec fn title_text(&self) -> Option<Seq<char>> {
        self@.title
    }

    open spec fn produces(&self, fields: Seq<FieldState>) -> bool {
        exists|phone: Pattern|
            phone.made_from(phone_pattern(), "Invalid phone number format"@) && fields
                == self.field_states(phone)
    }

    open spec fn expands(&self) -> bool {
        compiles(phone_pattern())
    }

    open spec fn fails_with(&self, error: PatternError) -> bool {
        error.pattern@ == phone_pattern()
    }

    fn prefix(&self) -> (r: &str) {
        self.prefix.as_str()
    }

    fn title(&self) -> (r: Option<&str>) {
        match &self.title {
            Some(t) => Some(t.as_str()),
            None => None,
        }
    }

    fn fields(&self) -> (r: Result<Vec<FormField>, PatternError>) {
        match Pattern::phone() {
            Ok(phone) => Ok(self.fields_with(phone)),
            Err(e) => Err(e),
        }
    }
}

} // verus!
