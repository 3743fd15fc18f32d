//! The project record whose fields are substituted into a template tree.

use std::path::PathBuf;
use vstd::prelude::*;

verus! {

#[verifier::external_type_specification]
#[verifier::external_body]
pub struct ExPathBuf(std::path::PathBuf);

/// The mod loader a template is written for.
#[derive(Debug, Clone, Copy, PartialEq, Eq, Hash, Structural)]
pub enum Loader {
    Quilt,
}

/// The source language of a template.
#[derive(Debug, Clone, Copy, PartialEq, Eq, Hash, Structural)]
pub enum Language {
    Java,
    Kotlin,
}

/// The display name of a loader.
pub open spec fn loader_name(l: Loader) -> Seq<char> {
    match l {
        Loader::Quilt => "Quilt"@,
    }
}

/// The display name of a language.
pub open spec fn language_name(l: Language) -> Seq<char> {
    match l {
        Language::Java => "Java"@,
        Language::Kotlin => "Kotlin"@,
    }
}

impl Loader {
    /// The display name of the loader.
    pub fn to_display_string(&self) -> (r: String)
        ensures
            r@ == loader_name(*self),
    {
        match self {
            Loader::Quilt => "Quilt".to_string(),
        }
    }
}

impl Language {
    /// The display name of the language.
    pub fn to_display_string(&self) -> (r: String)
        ensures
            r@ == language_name(*self),
    {
        match self {
            Language::Java => "Java".to_string(),
            Language::Kotlin => "Kotlin".to_string(),
        }
    }

    /// The name of the source directory under `src/main` for the language.
    pub fn to_src_string(&self) -> (r: String)
        ensures
            *self == Language::Java ==> r@ == "java"@,
            *self == Language::Kotlin ==> r@ == "kotlin"@,
    {
        if *self == Language::Java {
            "java".to_string()
        } else {
            "kotlin".to_string()
        }
    }

    /// The file extension of the language's source files.
    pub fn file_extension(&self) -> (r: String)
        ensures
            *self == Language::Java ==> r@ == "java"@,
            *self == Language::Kotlin ==> r@ == "kt"@,
    {
        if *self == Language::Java {
            "java".to_string()
        } else {
            "kt".to_string()
        }
    }
}

/// The values that a template's placeholders are replaced with.
#[derive(Debug)]
pub struct Project {
    pub title: String,
    pub id: String,
    pub main_class_name: String,
    pub maven_group: String,
    pub author: String,
    pub repo_url: Option<String>,
    pub issues_url: Option<String>,
    pub homepage_url: Option<String>,
    pub loader: Loader,
    pub lang: Language,
    pub path: PathBuf,
}

/// The text of an optional field: empty where it is absent.
pub open spec fn optional_text(o: Option<String>) -> Seq<char> {
    match o {
        Some(s) => s@,
        None => Seq::empty(),
    }
}

} // verus!
