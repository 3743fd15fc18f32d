//! Case styles and their rendering of text.

use heck::{ToKebabCase, ToLowerCamelCase, ToSnakeCase, ToUpperCamelCase};
use vstd::prelude::*;

verus! {

/// What `heck`'s `to_snake_case` returns for a text.
pub uninterp spec fn snake_of(s: Seq<char>) -> Seq<char>;

/// What `heck`'s `to_upper_camel_case` returns for a text.
pub uninterp spec fn upper_camel_of(s: Seq<char>) -> Seq<char>;

/// What `heck`'s `to_lower_camel_case` returns for a text.
pub uninterp spec fn lower_camel_of(s: Seq<char>) -> Seq<char>;

/// What `heck`'s `to_kebab_case` returns for a text.
pub uninterp spec fn kebab_of(s: Seq<char>) -> Seq<char>;

/// Relies on heck::ToSnakeCase::to_snake_case: the result depends on the
/// characters alone, and a text without words gives an empty result.
#[verifier::external_body]
fn snake(s: &str) -> (r: String)
    ensures
        r@ == snake_of(s@),
        s@.len() == 0 ==> r@.len() == 0,
{
    s.to_snake_case()
}

/// Relies on heck::ToUpperCamelCase::to_upper_camel_case: the result depends
/// on the characters alone, and a text without words gives an empty result.
#[verifier::external_body]
fn upper_camel(s: &str) -> (r: String)
    ensures
        r@ == upper_camel_of(s@),
        s@.len() == 0 ==> r@.len() == 0,
{
    s.to_upper_camel_case()
}

/// Relies on heck::ToLowerCamelCase::to_lower_camel_case: the result depends
/// on the characters alone, and a text without words gives an empty result.
#[verifier::external_body]
fn lower_camel(s: &str) -> (r: String)
    ensures
        r@ == lower_camel_of(s@),
        s@.len() == 0 ==> r@.len() == 0,
{
    s.to_lower_camel_case()
}

/// Relies on heck::ToKebabCase::to_kebab_case: the result depends on the
/// characters alone, and a text without words gives an empty result.
#[verifier::external_body]
fn kebab(s: &str) -> (r: String)
    ensures
        r@ == kebab_of(s@),
        s@.len() == 0 ==> r@.len() == 0,
{
    s.to_kebab_case()
}

/// A casing style in which a project field is written.
#[derive(Debug, Clone, Copy, PartialEq, Eq, Structural)]
pub enum Case {
    /// The text as it is.
    Verbatim,
    /// `snake_case`: lower case words joined by `_`.
    SnakeCase,
    /// `UpperCamelCase`: capitalised words, no separator.
    UpperCamelCase,
    /// `lowerCamelCase`: the first word lower case, the others capitalised.
    LowerCamelCase,
    /// `kebab-case`: lower case words joined by `-`.
    KebabCase,
}

/// The text `s` written in the style `c`.
pub open spec fn case_text(c: Case, s: Seq<char>) -> Seq<char> {
    match c {
        Case::Verbatim => s,
        Case::SnakeCase => snake_of(s),
        Case::UpperCamelCase => upper_camel_of(s),
        Case::LowerCamelCase => lower_camel_of(s),
        Case::KebabCase => kebab_of(s),
    }
}

impl Case {
    /// Writes `text` in this style; `Case::Verbatim` hands it back unchanged.
    pub fn format(&self, text: &str) -> (r: String)
        ensures
            r@ == case_text(*self, text@),
            *self == Case::Verbatim ==> r@ == text@,
            text@.len() == 0 ==> r@.len() == 0,
    {
        match self {
            Case::Verbatim => text.to_string(),
            Case::SnakeCase => snake(text),
            Case::UpperCamelCase => upper_camel(text),
            Case::LowerCamelCase => lower_camel(text),
            Case::KebabCase => kebab(text),
        }
    }
}

/// Writing a text in the verbatim style a second time changes nothing.
pub proof fn lemma_verbatim_idempotent(s: Seq<char>)
    ensures
        case_text(Case::Verbatim, case_text(Case::Verbatim, s)) == case_text(Case::Verbatim, s),
        case_text(Case::Verbatim, s) == s,
{
}

} // verus!
