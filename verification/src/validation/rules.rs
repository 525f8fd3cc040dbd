//! Built-in validation rules.

use crate::strings::{blank, byte_len, decimal, decimal_digits, is_blank, joined, to_chars};
use crate::validation::Validator;
use vstd::prelude::*;
use vstd::utf8::encode_utf8;

verus! {

/// Validates that a field is not empty.
#[derive(Clone, Copy, Debug)]
pub struct Required;

impl Validator for Required {
    open spec fn accepts(&self, value: Seq<char>) -> bool {
        !blank(value)
    }

    open spec fn complaint(&self, value: Seq<char>) -> Seq<char> {
        "This field is required"@
    }

    fn validate(&self, value: &str) -> (r: Result<(), String>) {
        if is_blank(value) {
            Err(String::from_str("This field is required"))
        } else {
            Ok(())
        }
    }
}

/// True when `at` is the position of the one `@` of `s`.
pub open spec fn sole_at(s: Seq<char>, at: int) -> bool {
    &&& 0 <= at < s.len()
    &&& s[at] == '@'
    &&& forall|i: int| 0 <= i < s.len() && i != at ==> s[i] != '@'
}

/// True when a dot stands at `i` and another right behind it.
pub open spec fn dot_pair(s: Seq<char>, i: int) -> bool {
    s[i] == '.' && s[i + 1] == '.'
}

/// True when one of the labels that the dots of `domain` separate is empty.
pub open spec fn has_empty_label(domain: Seq<char>) -> bool {
    ||| domain.len() == 0
    ||| domain[0] == '.'
    ||| domain.last() == '.'
    ||| exists|i: int| 0 <= i < domain.len() - 1 && dot_pair(domain, i)
}

/// True when `domain` holds a dot and none of its labels is empty.
pub open spec fn is_domain(domain: Seq<char>) -> bool {
    domain.contains('.') && !has_empty_label(domain)
}

/// The structure of an email address: exactly one `@`, a local part before it
/// that is not empty, and a domain after it.
pub open spec fn is_email(s: Seq<char>) -> bool {
    exists|at: int| sole_at(s, at) && at > 0 && is_domain(s.skip(at + 1))
}

/// The position of the first `@` of `chars`, if there is one.
fn find_at(chars: &Vec<char>) -> (r: Option<usize>)
    ensures
        match r {
            Some(at) => at < chars.len() && chars[at as int] == '@' && forall|i: int|
                0 <= i < at ==> chars[i] != '@',
            None => forall|i: int| 0 <= i < chars.len() ==> chars[i] != '@',
        },
{
    let mut i: usize = 0;
    while i < chars.len()
        invariant
            i <= chars.len(),
            forall|j: int| 0 <= j < i ==> chars[j] != '@',
        decreases chars.len() - i,
    {
        if chars[i] == '@' {
            return Some(i);
        }
        i = i + 1;
    }
    None
}

/// Whether the characters of `chars` from `start` on form a domain, and hold
/// no `@`.
fn check_domain(chars: &Vec<char>, start: usize) -> (ok: bool)
    requires
        start <= chars.len(),
    ensures
        ok == (is_domain(chars@.skip(start as int)) && forall|i: int|
            start <= i < chars.len() ==> chars[i] != '@'),
{
    let ghost domain = chars@.skip(start as int);
    let n: usize = chars.len();
    if start == n {
        return false;
    }
    let mut seen_dot: bool = false;
    let mut prev_dot: bool = true;
    let mut i: usize = start;
    while i < n
        invariant
            start <= i <= n,
            n == chars.len(),
            domain == chars@.skip(start as int),
            forall|j: int| start <= j < i ==> chars[j] != '@',
            seen_dot == exists|j: int| start <= j < i && chars[j] == '.',
            prev_dot == (i == start || chars[i - 1] == '.'),
            chars[start as int] != '.' || i == start,
            forall|j: int| start <= j < i - 1 ==> !dot_pair(chars@, j),
        decreases n - i,
    {
        let c: char = chars[i];
        if c == '@' {
            return false;
        }
        if c == '.' {
            if prev_dot {
                proof {
                    if i == start {
                        assert(domain[0] == '.');
                    } else {
                        let w: int = i - 1 - start;
                        assert(dot_pair(domain, w));
                    }
                    assert(has_empty_label(domain));
                }
                return false;
            }
            seen_dot = true;
        }
        prev_dot = c == '.';
        i = i + 1;
    }
    proof {
        assert(domain.last() == chars[n - 1]);
        if seen_dot {
            let j = choose|j: int| start <= j < n && chars[j] == '.';
            assert(domain[j - start] == '.');
            assert(domain.contains('.'));
        } else {
            if domain.contains('.') {
                let w = choose|w: int| 0 <= w < domain.len() && domain[w] == '.';
                assert(chars[w + start] == '.');
            }
        }
        if !prev_dot {
            if has_empty_label(domain) {
                let w = choose|w: int| 0 <= w < domain.len() - 1 && dot_pair(domain, w);
                assert(dot_pair(chars@, w + start));
            }
        }
    }
    seen_dot && !prev_dot
}

/// Validates that a field contains a valid email address.
#[derive(Clone, Copy, Debug)]
pub struct Email;

impl Validator for Email {
    open spec fn accepts(&self, value: Seq<char>) -> bool {
        value.len() == 0 || is_email(value)
    }

    open spec fn complaint(&self, value: Seq<char>) -> Seq<char> {
        "Invalid email address"@
    }

    fn validate(&self, value: &str) -> (r: Result<(), String>) {
        if value.is_empty() {
            return Ok(());
        }
        let chars = to_chars(value);
        let ok = match find_at(&chars) {
            Some(at) => {
                let ok = at > 0 && check_domain(&chars, at + 1);
                proof {
                    if ok {
                        assert(sole_at(value@, at as int));
                    } else if is_email(value@) {
                        let w = choose|w: int|
                            sole_at(value@, w) && w > 0 && is_domain(value@.skip(w + 1));
                        assert(w == at);
                    }
                }
                ok
            },
            None => {
                proof {
                    if is_email(value@) {
                        let w = choose|w: int|
                            sole_at(value@, w) && w > 0 && is_domain(value@.skip(w + 1));
                        assert(value@[w] == '@');
                    }
                }
                false
            },
        };
        if ok {
            Ok(())
        } else {
            Err(String::from_str("Invalid email address"))
        }
    }
}

/// The message of a length rule: `before`, the limit in base ten, and
/// `" characters"`.
pub open spec fn length_complaint(before: Seq<char>, limit: nat) -> Seq<char> {
    before + decimal_digits(limit) + " characters"@
}

fn length_message(before: &str, limit: usize) -> (m: String)
    ensures
        m@ == length_complaint(before@, limit as nat),
{
    let digits = decimal(limit);
    let mut m = joined(before, digits.as_str());
    m.append(" characters");
    m
}

/// Validates minimum string length, counted in bytes.
#[derive(Clone, Copy, Debug)]
pub struct MinLength(pub usize);

impl Validator for MinLength {
    open spec fn accepts(&self, value: Seq<char>) -> bool {
        value.len() == 0 || encode_utf8(value).len() >= self.0
    }

    open spec fn complaint(&self, value: Seq<char>) -> Seq<char> {
        length_complaint("Must be at least "@, self.0 as nat)
    }

    fn validate(&self, value: &str) -> (r: Result<(), String>) {
        if value.is_empty() {
            return Ok(());
        }
        if byte_len(value) < self.0 {
            Err(length_message("Must be at least ", self.0))
        } else {
            Ok(())
        }
    }
}

/// Validates maximum string length, counted in bytes.
#[derive(Clone, Copy, Debug)]
pub struct MaxLength(pub usize);

impl Validator for MaxLength {
    open spec fn accepts(&self, value: Seq<char>) -> bool {
        encode_utf8(value).len() <= self.0
    }

    open spec fn complaint(&self, value: Seq<char>) -> Seq<char> {
        length_complaint("Must be at most "@, self.0 as nat)
    }

    fn validate(&self, value: &str) -> (r: Result<(), String>) {
        if byte_len(value) > self.0 {
            Err(length_message("Must be at most ", self.0))
        } else {
            Ok(())
        }
    }
}

/// Trusted: `regex::Regex`, a compiled expression, carried as an opaque
/// value.
#[verifier::external_type_specification]
#[verifier::external_body]
pub struct ExRegex(regex::Regex);

/// Trusted: `regex::Error`, the error of a pattern that did not compile,
/// carried as an opaque value.
#[verifier::external_type_specification]
#[verifier::external_body]
pub struct ExRegexError(regex::Error);

/// The pattern that a compiled expression was made from.
pub uninterp spec fn pattern_of(re: regex::Regex) -> Seq<char>;

/// Whether the compiled expression `re` matches somewhere in `text`.
pub uninterp spec fn regex_accepts(re: regex::Regex, text: Seq<char>) -> bool;

/// Whether `pattern` compiles on a machine whose `usize` has `word_bits`
/// bits. The width counts because the compiler refuses a pattern whose
/// compiled form is over a limit in bytes, and that form holds pointers.
pub uninterp spec fn pattern_compiles(pattern: Seq<char>, word_bits: nat) -> bool;

/// Whether the expression that `pattern` compiles to matches somewhere in
/// `text`.
pub uninterp spec fn pattern_matches(pattern: Seq<char>, text: Seq<char>) -> bool;

/// Whether `pattern` compiles on this machine.
pub open spec fn compiles(pattern: Seq<char>) -> bool {
    pattern_compiles(pattern, usize::BITS as nat)
}

/// Compiles `pattern`.
///
/// Trusted: states of `regex::Regex::new` that it succeeds on the patterns
/// named by `pattern_compiles`, and that the expression it hands back was
/// made from the pattern given and matches what `pattern_matches` names for
/// that pattern. `Regex::new` compiles with the default settings, so the
/// pattern settles both.
#[verifier::external_body]
fn compile(pattern: &str) -> (r: Result<regex::Regex, regex::Error>)
    ensures
        r is Ok <==> pattern_compiles(pattern@, usize::BITS as nat),
        r matches Ok(re) ==> pattern_of(re) == pattern@,
        r matches Ok(re) ==> forall|text: Seq<char>| #[trigger]
            regex_accepts(re, text) == pattern_matches(pattern@, text),
{
    regex::Regex::new(pattern)
}

/// Trusted: names what `regex::Regex::as_str` returns, the pattern that the
/// expression was made from.
#[verifier::external_body]
fn source_of(re: &regex::Regex) -> (s: &str)
    ensures
        s@ == pattern_of(*re),
{
    re.as_str()
}

/// Trusted: names what `regex::Regex::is_match` returns, as a function of the
/// compiled expression and of the text searched.
#[verifier::external_body]
fn is_match(re: &regex::Regex, text: &str) -> (b: bool)
    ensures
        b == regex_accepts(*re, text@),
{
    re.is_match(text)
}

/// Trusted: the text in which `regex::Error` describes itself. Nothing is
/// stated of it.
#[verifier::external_body]
fn error_text(error: &regex::Error) -> String {
    error.to_string()
}

/// A pattern that could not be compiled.
#[derive(Debug, Clone, PartialEq, Eq)]
pub struct PatternError {
    /// The pattern as it was given.
    pub pattern: String,
    /// What the compiler said of it.
    pub reason: String,
}

impl PatternError {
    /// The error as one line of text.
    pub fn describe(&self) -> (text: String)
        ensures
            text@ == "Invalid regex pattern: "@ + self.reason@,
    {
        joined("Invalid regex pattern: ", self.reason.as_str())
    }
}

/// The pattern of US ZIP codes: five digits, or five and four.
pub open spec fn zip_pattern() -> Seq<char> {
    r"^\d{5}(-\d{4})?$"@
}

/// The pattern of US phone numbers.
pub open spec fn phone_pattern() -> Seq<char> {
    r"^(\+1[-.\s]?)?(\(?\d{3}\)?[-.\s]?)?\d{3}[-.\s]?\d{4}$"@
}

/// The pattern of dates written as YYYY-MM-DD.
pub open spec fn date_pattern() -> Seq<char> {
    r"^\d{4}-\d{2}-\d{2}$"@
}

/// Validates against a regex pattern.
#[derive(Debug)]
pub struct Pattern {
    regex: regex::Regex,
    message: String,
}

impl Pattern {
    /// The pattern that the validator was made from.
    pub closed spec fn source(&self) -> Seq<char> {
        pattern_of(self.regex)
    }

    /// The message with which the validator refuses a value.
    pub closed spec fn message(&self) -> Seq<char> {
        self.message@
    }

    /// Whether the compiled expression of the validator matches somewhere in
    /// `text`.
    pub closed spec fn matches(&self, text: Seq<char>) -> bool {
        regex_accepts(self.regex, text)
    }

    /// The validator is what compiling `pattern` gives, with `message`: it
    /// was made from the pattern and matches what the pattern matches.
    pub open spec fn made_from(&self, pattern: Seq<char>, message: Seq<char>) -> bool {
        &&& self.source() == pattern
        &&& self.message() == message
        &&& forall|text: Seq<char>| #[trigger] self.matches(text) == pattern_matches(pattern, text)
    }

    /// What compiling gave, made into a validator: the compiled expression
    /// with its message, or the error with the pattern that caused it.
    pub fn from_compiled(
        pattern: &str,
        compiled: Result<regex::Regex, regex::Error>,
        message: &str,
    ) -> (r: Result<Pattern, PatternError>)
        ensures
            r is Ok <==> compiled is Ok,
            match r {
                Ok(p) => compiled matches Ok(re) && p.source() == pattern_of(re) && p.message()
                    == message@ && forall|text: Seq<char>| #[trigger]
                    p.matches(text) == regex_accepts(re, text),
                Err(e) => compiled is Err && e.pattern@ == pattern@,
            },
    {
        match compiled {
            Ok(regex) => Ok(Pattern { regex, message: String::from_str(message) }),
            Err(error) => Err(
                PatternError { pattern: String::from_str(pattern), reason: error_text(&error) },
            ),
        }
    }

    /// Creates a new pattern validator.
    ///
    /// It succeeds exactly on the patterns that compile. A pattern that is
    /// not a valid regex, or one that compiles to more than the compiler
    /// allows, is an error, which holds the pattern.
    pub fn new(pattern: &str, message: &str) -> (r: Result<Pattern, PatternError>)
        ensures
            r is Ok <==> compiles(pattern@),
            match r {
                Ok(p) => p.made_from(pattern@, message@),
                Err(e) => e.pattern@ == pattern@,
            },
    {
        Self::from_compiled(pattern, compile(pattern), message)
    }

    /// Creates a US ZIP code validator (5 digits or 5+4 format).
    pub fn zip_code() -> (r: Result<Pattern, PatternError>)
        ensures
            r is Ok <==> compiles(zip_pattern()),
            match r {
                Ok(p) => p.made_from(zip_pattern(), "Invalid ZIP code format"@),
                Err(e) => e.pattern@ == zip_pattern(),
            },
    {
        Self::new(r"^\d{5}(-\d{4})?$", "Invalid ZIP code format")
    }

    /// Creates a US phone number validator.
    pub fn phone() -> (r: Result<Pattern, PatternError>)
        ensures
            r is Ok <==> compiles(phone_pattern()),
            match r {
                Ok(p) => p.made_from(phone_pattern(), "Invalid phone number format"@),
                Err(e) => e.pattern@ == phone_pattern(),
            },
    {
        Self::new(
            r"^(\+1[-.\s]?)?(\(?\d{3}\)?[-.\s]?)?\d{3}[-.\s]?\d{4}$",
            "Invalid phone number format",
        )
    }

    /// Creates a date validator (YYYY-MM-DD format).
    pub fn date() -> (r: Result<Pattern, PatternError>)
        ensures
            r is Ok <==> compiles(date_pattern()),
            match r {
                Ok(p) => p.made_from(date_pattern(), "Invalid date format (use YYYY-MM-DD)"@),
                Err(e) => e.pattern@ == date_pattern(),
            },
    {
        Self::new(r"^\d{4}-\d{2}-\d{2}$", "Invalid date format (use YYYY-MM-DD)")
    }

    /// The pattern that the validator searches for.
    pub fn pattern(&self) -> (s: &str)
        ensures
            s@ == self.source(),
    {
        source_of(&self.regex)
    }

    /// The message with which the validator refuses a value.
    pub fn message_text(&self) -> (s: &str)
        ensures
            s@ == self.message(),
    {
        self.message.as_str()
    }
}

impl Validator for Pattern {
    open spec fn accepts(&self, value: Seq<char>) -> bool {
        value.len() == 0 || self.matches(value)
    }

    open spec fn complaint(&self, value: Seq<char>) -> Seq<char> {
        self.message()
    }

    fn validate(&self, value: &str) -> (r: Result<(), String>) {
        if value.is_empty() {
            return Ok(());
        }
        if is_match(&self.regex, value) {
            Ok(())
        } else {
            Err(self.message.clone())
        }
    }
}

/// One of the built-in validators.
#[derive(Debug)]
pub enum Rule {
    Required(Required),
    Email(Email),
    MinLength(MinLength),
    MaxLength(MaxLength),
    Pattern(Pattern),
}

impl Validator for Rule {
    open spec fn accepts(&self, value: Seq<char>) -> bool {
        match self {
            Rule::Required(v) => v.accepts(value),
            Rule::Email(v) => v.accepts(value),
            Rule::MinLength(v) => v.accepts(value),
            Rule::MaxLength(v) => v.accepts(value),
            Rule::Pattern(v) => v.accepts(value),
        }
    }

    open spec fn complaint(&self, value: Seq<char>) -> Seq<char> {
        match self {
            Rule::Required(v) => v.complaint(value),
            Rule::Email(v) => v.complaint(value),
            Rule::MinLength(v) => v.complaint(value),
            Rule::MaxLength(v) => v.complaint(value),
            Rule::Pattern(v) => v.complaint(value),
        }
    }

    fn validate(&self, value: &str) -> (r: Result<(), String>) {
        match self {
            Rule::Required(v) => v.validate(value),
            Rule::Email(v) => v.validate(value),
            Rule::MinLength(v) => v.validate(value),
            Rule::MaxLength(v) => v.validate(value),
            Rule::Pattern(v) => v.validate(value),
        }
    }
}

/// Required-ness is no business of the format rules: each of them lets the
/// empty string pass.
pub proof fn lemma_format_rules_accept_empty(rule: Rule)
    requires
        !(rule is Required),
    ensures
        rule.accepts(Seq::empty()),
{
    assert(encode_utf8(Seq::<char>::empty()).len() == 0);
}

/// The rule of required-ness refuses the empty string and the blank ones.
pub proof fn lemma_required_refuses_blank(value: Seq<char>)
    ensures
        value.len() == 0 ==> !Required.accepts(value),
        blank(value) <==> !Required.accepts(value),
{
}

} // verus!
