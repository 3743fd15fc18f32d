//! Syntax checks of the identifiers a user gives for a project.

use crate::matcher::{regex_compiles, regex_matches, Pattern};
use vstd::prelude::*;

verus! {

/// A mod id: a lower case letter, then lower case letters, digits and `_`.
pub const MOD_ID_REGEX: &'static str = r"^[a-z][a-z0-9_]*$";

/// A Java class name.
pub const JAVA_CLASS_NAME_REGEX: &'static str = r"^[a-zA-Z_$][a-zA-Z0-9_$]*$";

/// A dotted sequence of Java identifiers.
pub const GROUP_REGEX: &'static str = r"^([a-zA-Z_$][a-zA-Z0-9_$]*\.)*[a-zA-Z_$][a-zA-Z0-9_$]*$";

/// `text` itself where the expression `source` matches it, else `message`.
fn parse_with(source: &str, text: &str, message: &str) -> (r: Result<String, String>)
    ensures
        match r {
            Ok(s) => s@ == text@ && regex_matches(source@, text@),
            Err(m) => m@ == message@,
        },
        r is Ok <==> (regex_compiles(source@) && regex_matches(source@, text@)),
{
    match Pattern::new(source) {
        Ok(p) => {
            if p.is_match(text) {
                Ok(text.to_string())
            } else {
                Err(message.to_string())
            }
        },
        Err(_) => Err(message.to_string()),
    }
}

/// Accepts a mod id.
pub fn parse_mod_id(id: &str) -> (r: Result<String, String>)
    ensures
        match r {
            Ok(s) => s@ == id@ && regex_matches(MOD_ID_REGEX@, id@),
            Err(m) => m@ == "Invalid mod id"@,
        },
        r is Ok <==> (regex_compiles(MOD_ID_REGEX@) && regex_matches(MOD_ID_REGEX@, id@)),
{
    parse_with(MOD_ID_REGEX, id, "Invalid mod id")
}

/// Accepts a Java class name.
pub fn parse_class_name(name: &str) -> (r: Result<String, String>)
    ensures
        match r {
            Ok(s) => s@ == name@ && regex_matches(JAVA_CLASS_NAME_REGEX@, name@),
            Err(m) => m@ == "Invalid class name"@,
        },
        r is Ok <==> (regex_compiles(JAVA_CLASS_NAME_REGEX@) && regex_matches(JAVA_CLASS_NAME_REGEX@, name@)),
{
    parse_with(JAVA_CLASS_NAME_REGEX, name, "Invalid class name")
}

/// Accepts a maven group.
pub fn parse_group(name: &str) -> (r: Result<String, String>)
    ensures
        match r {
            Ok(s) => s@ == name@ && regex_matches(GROUP_REGEX@, name@),
            Err(m) => m@ == "Invalid class name"@,
        },
        r is Ok <==> (regex_compiles(GROUP_REGEX@) && regex_matches(GROUP_REGEX@, name@)),
{
    parse_with(GROUP_REGEX, name, "Invalid class name")
}

} // verus!
