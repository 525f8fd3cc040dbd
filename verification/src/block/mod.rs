//! Composite form blocks.
//!
//! A block is a template: asked for its fields, it makes a fresh ordered list
//! of them, each with an id that begins with the block's prefix.

pub mod address;
pub mod contact;
pub mod date_range;

use crate::field::{all_wf, states_of, FieldState, FormField};
use crate::strings::joined;
use crate::validation::rules::PatternError;
use vstd::prelude::*;

verus! {

/// The configuration of a block: the prefix of its field ids, its title, and
/// whether its fields are required.
pub struct BlockState {
    pub prefix: Seq<char>,
    pub title: Option<Seq<char>>,
    pub required: bool,
}

/// The id of the field `name` in a block with the prefix `prefix`: the two
/// joined by an underscore.
pub open spec fn field_id_of(prefix: Seq<char>, name: Seq<char>) -> Seq<char> {
    prefix + "_"@ + name
}

/// `prefix` and `name` joined by an underscore.
pub fn join_id(prefix: &str, name: &str) -> (id: String)
    ensures
        id@ == field_id_of(prefix@, name@),
{
    let mut id = joined(prefix, "_");
    id.append(name);
    id
}

/// Fields of one block with different names have different ids.
pub proof fn lemma_field_ids_differ(prefix: Seq<char>, a: Seq<char>, b: Seq<char>)
    requires
        a != b,
    ensures
        field_id_of(prefix, a) != field_id_of(prefix, b),
{
    let head = prefix + "_"@;
    assert(field_id_of(prefix, a).skip(head.len() as int) =~= a);
    assert(field_id_of(prefix, b).skip(head.len() as int) =~= b);
}

/// Trait for composite form blocks that contain multiple fields.
pub trait Block: Send + Sync {
    /// The prefix of the ids of the block's fields.
    spec fn prefix_text(&self) -> Seq<char>;

    /// The title of the block.
    spec fn title_text(&self) -> Option<Seq<char>>;

    /// Whether `fields` are the states of the fields that the block makes.
    spec fn produces(&self, fields: Seq<FieldState>) -> bool;

    /// Whether `error` is one with which making the fields can fail: the
    /// error of a pattern that the block compiles for one of its fields.
    spec fn fails_with(&self, error: PatternError) -> bool;

    /// Whether the block can make its fields: every pattern that it compiles
    /// for them compiles.
    spec fn expands(&self) -> bool;

    /// Returns the block's prefix for field IDs.
    fn prefix(&self) -> (r: &str)
        ensures
            r@ == self.prefix_text(),
    ;

    /// Returns all fields in this block, freshly made, or the error of a
    /// pattern of the block that could not be compiled.
    fn fields(&self) -> (r: Result<Vec<FormField>, PatternError>)
        ensures
            r is Ok <==> self.expands(),
            match r {
                Ok(fields) => all_wf(fields@) && self.produces(states_of(fields@)),
                Err(error) => self.fails_with(error),
            },
    ;

    /// Returns the block's title/label.
    fn title(&self) -> (r: Option<&str>)
        ensures
            match r {
                Some(t) => self.title_text() == Some(t@),
                None => self.title_text() is None,
            },
    ;
}

} // verus!
