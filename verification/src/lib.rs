//! A form engine for terminal user interfaces.
//!
//! A form is an ordered list of labelled input fields, driven by a stream of
//! keyboard events. The crate holds the field types and their editing state,
//! the focus cycle, the validation rules, the submission lifecycle and the
//! value tree that a form exports. Drawing and terminal handling are left to
//! the host.

pub mod block;
pub mod event;
pub mod field;
pub mod form;
pub mod layout;
pub mod navigation;
pub mod strings;
pub mod style;
pub mod validation;
pub mod value;

pub use block::address::AddressBlock;
pub use block::contact::ContactBlock;
pub use block::date_range::{DateRangeBlock, DateRangeField};
pub use block::Block;
pub use event::{KeyCode, KeyEvent, KeyModifiers};
pub use field::checkbox::Checkbox;
pub use field::select::Select;
pub use field::text::TextInput;
pub use field::{Field, FormField};
pub use form::{
    CheckboxFieldBuilder, Form, FormBuilder, FormResult, SelectFieldBuilder, TextFieldBuilder,
};
pub use navigation::FocusManager;
pub use style::{Color, FormStyle, Style};
pub use validation::rules::{Email, MaxLength, MinLength, Pattern, PatternError, Required, Rule};
pub use validation::{ValidationError, Validator};
pub use value::ValueTree;
