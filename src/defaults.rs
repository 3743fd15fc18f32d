//! The template repositories and rule sets that a configuration starts with.

use crate::case::Case;
use crate::insertion::ReplacementInsertion;
use crate::matcher::{regex_compiles, ConfigError, Pattern, ReplacementFile};
use crate::project::{Language, Loader};
use crate::rules::{Replacement, Replacements};
use vstd::prelude::*;

verus! {

/// The repository the Java template is cloned from.
pub const QUILT_JAVA_GIT_TEMPLATE: &'static str = "https://github.com/QuiltMC/quilt-template-mod.git";

/// The repository the Kotlin template is cloned from.
pub const QUILT_KOTLIN_GIT_TEMPLATE: &'static str =
    "https://github.com/QuiltMC/quilt-kotlin-template-mod.git";

/// The files that the tree-wide rules leave alone: binaries, build scripts
/// and files that describe the template itself.
pub const EXCLUDED_FILES: &'static str =
    r"(\.jar)|(gradlew)|(gradlew.bat)|(README.md)|(.editorconfig)|(.gitignore)|(gradle-wrapper.properties)|(\.png)|(LICENSE-TEMPLATE.md)|(.gitattributes)$";

/// The metadata file that the single-file rules apply to.
pub const MOD_METADATA_FILE: &'static str = "quilt.mod.json";

/// A template repository together with the rules that adapt its tree.
#[derive(Debug)]
pub struct TemplateData {
    pub repository_url: String,
    pub replacements: Replacements,
}

/// One row of a rule table: whether the rule is for the metadata file alone
/// (else for every file but the excluded ones), what it finds, and what it
/// puts in its place.
pub type RuleRow = (bool, &'static str, ReplacementInsertion);

/// A row with its text as characters.
pub open spec fn row_view(row: RuleRow) -> (bool, Seq<char>, ReplacementInsertion) {
    (row.0, row.1@, row.2)
}

/// Whether `rule` is what the table row `row` describes.
pub open spec fn rule_follows(rule: Replacement, row: (bool, Seq<char>, ReplacementInsertion)) -> bool {
    &&& rule.replace@ == row.1
    &&& rule.with == row.2
    &&& if row.0 {
        rule.file matches ReplacementFile::Only { path } && path@ == MOD_METADATA_FILE@
    } else {
        rule.file matches ReplacementFile::All { matching, except_matching } && matching is None
            && except_matching is Some && except_matching->0@ == EXCLUDED_FILES@
    }
}

/// Whether the rules are, in order, what the table's rows describe.
pub open spec fn rules_follow(rules: Seq<Replacement>, table: Seq<(bool, Seq<char>, ReplacementInsertion)>) -> bool {
    &&& rules.len() == table.len()
    &&& forall|i: int| 0 <= i < rules.len() ==> rule_follows(#[trigger] rules[i], table[i])
}

/// The rules that adapt the Java template.
pub open spec fn java_table() -> Seq<(bool, Seq<char>, ReplacementInsertion)> {
    seq![
        (false, "com.example"@, ReplacementInsertion::Group(Case::Verbatim)),
        (false, "Example Mod"@, ReplacementInsertion::Name(Case::Verbatim)),
        (false, "example_mod"@, ReplacementInsertion::Id(Case::Verbatim)),
        (false, "ExampleMod"@, ReplacementInsertion::MainClass(Case::Verbatim)),
        (false, "exampleMod"@, ReplacementInsertion::MainClass(Case::LowerCamelCase)),
        (true, "Your name here"@, ReplacementInsertion::Author(Case::Verbatim)),
        (true, "https://example.com/"@, ReplacementInsertion::HomepageUrl(Case::Verbatim)),
        (true, "https://github.com/QuiltMC/quilt-template-mod/issues"@, ReplacementInsertion::IssuesUrl(Case::Verbatim)),
        (true, "https://github.com/QuiltMC/quilt-template-mod"@, ReplacementInsertion::RepoUrl(Case::Verbatim)),
    ]
}

/// The rules that adapt the Kotlin template.
pub open spec fn kotlin_table() -> Seq<(bool, Seq<char>, ReplacementInsertion)> {
    seq![
        (false, "com.example"@, ReplacementInsertion::Group(Case::Verbatim)),
        (false, "Example Mod"@, ReplacementInsertion::Name(Case::Verbatim)),
        (false, "example_mod"@, ReplacementInsertion::Id(Case::Verbatim)),
        (false, "ExampleMod"@, ReplacementInsertion::MainClass(Case::Verbatim)),
        (false, "exampleMod"@, ReplacementInsertion::MainClass(Case::LowerCamelCase)),
        (true, "Mod Name"@, ReplacementInsertion::Name(Case::Verbatim)),
        (true, "Your name here"@, ReplacementInsertion::Author(Case::Verbatim)),
        (true, "https://example.com/"@, ReplacementInsertion::HomepageUrl(Case::Verbatim)),
        (true, "https://github.com/QuiltMC/quilt-kotlin-template-mod/issues"@, ReplacementInsertion::IssuesUrl(Case::Verbatim)),
        (true, "https://github.com/QuiltMC/quilt-kotlin-template-mod"@, ReplacementInsertion::RepoUrl(Case::Verbatim)),
        (false, "quilt-kotlin-template-mod"@, ReplacementInsertion::Id(Case::Verbatim)),
    ]
}

/// The rows of the Java rule table.
fn java_rows() -> (r: Vec<RuleRow>)
    ensures
        r@.map_values(|row: RuleRow| row_view(row)) == java_table(),
{
    let r: Vec<RuleRow> = vec![
        (false, "com.example", ReplacementInsertion::Group(Case::Verbatim)),
        (false, "Example Mod", ReplacementInsertion::Name(Case::Verbatim)),
        (false, "example_mod", ReplacementInsertion::Id(Case::Verbatim)),
        (false, "ExampleMod", ReplacementInsertion::MainClass(Case::Verbatim)),
        (false, "exampleMod", ReplacementInsertion::MainClass(Case::LowerCamelCase)),
        (true, "Your name here", ReplacementInsertion::Author(Case::Verbatim)),
        (true, "https://example.com/", ReplacementInsertion::HomepageUrl(Case::Verbatim)),
        (true, "https://github.com/QuiltMC/quilt-template-mod/issues", ReplacementInsertion::IssuesUrl(Case::Verbatim)),
        (true, "https://github.com/QuiltMC/quilt-template-mod", ReplacementInsertion::RepoUrl(Case::Verbatim)),
    ];
    assert(r@.map_values(|row: RuleRow| row_view(row)) =~= java_table());
    r
}

/// The rows of the Kotlin rule table.
fn kotlin_rows() -> (r: Vec<RuleRow>)
    ensures
        r@.map_values(|row: RuleRow| row_view(row)) == kotlin_table(),
{
    let r: Vec<RuleRow> = vec![
        (false, "com.example", ReplacementInsertion::Group(Case::Verbatim)),
        (false, "Example Mod", ReplacementInsertion::Name(Case::Verbatim)),
        (false, "example_mod", ReplacementInsertion::Id(Case::Verbatim)),
        (false, "ExampleMod", ReplacementInsertion::MainClass(Case::Verbatim)),
        (false, "exampleMod", ReplacementInsertion::MainClass(Case::LowerCamelCase)),
        (true, "Mod Name", ReplacementInsertion::Name(Case::Verbatim)),
        (true, "Your name here", ReplacementInsertion::Author(Case::Verbatim)),
        (true, "https://example.com/", ReplacementInsertion::HomepageUrl(Case::Verbatim)),
        (true, "https://github.com/QuiltMC/quilt-kotlin-template-mod/issues", ReplacementInsertion::IssuesUrl(Case::Verbatim)),
        (true, "https://github.com/QuiltMC/quilt-kotlin-template-mod", ReplacementInsertion::RepoUrl(Case::Verbatim)),
        (false, "quilt-kotlin-template-mod", ReplacementInsertion::Id(Case::Verbatim)),
    ];
    assert(r@.map_values(|row: RuleRow| row_view(row)) =~= kotlin_table());
    r
}

/// The rules that the rows describe, in order; the exclusion expression is
/// compiled for each tree-wide rule.
fn rules_of(rows: &Vec<RuleRow>) -> (r: Result<Replacements, ConfigError>)
    ensures
        match r {
            Ok(rules) => rules_follow(rules.0@, rows@.map_values(|row: RuleRow| row_view(row))),
            Err(ConfigError::InvalidPattern(s)) => s@ == EXCLUDED_FILES@,
        },
        regex_compiles(EXCLUDED_FILES@) ==> r is Ok,
        !regex_compiles(EXCLUDED_FILES@) && rows@.len() > 0 && !rows@[0].0 ==> r is Err,
{
    let ghost table = rows@.map_values(|row: RuleRow| row_view(row));
    let mut out: Vec<Replacement> = Vec::new();
    let mut k: usize = 0;
    while k < rows.len()
        invariant
            k <= rows@.len(),
            table == rows@.map_values(|row: RuleRow| row_view(row)),
            out@.len() == k,
            !regex_compiles(EXCLUDED_FILES@) && rows@.len() > 0 && !rows@[0].0 ==> k == 0,
            forall|i: int| 0 <= i < k ==> rule_follows(#[trigger] out@[i], table[i]),
        decreases rows@.len() - k,
    {
        let row = &rows[k];
        let file = if row.0 {
            ReplacementFile::Only { path: MOD_METADATA_FILE.to_string() }
        } else {
            match Pattern::new(EXCLUDED_FILES) {
                Ok(p) => ReplacementFile::All { matching: None, except_matching: Some(p) },
                Err(e) => {
                    return Err(e);
                },
            }
        };
        let rule = Replacement { file, replace: row.1.to_string(), with: row.2.copied() };
        assert(rule_follows(rule, table[k as int]));
        out.push(rule);
        k = k + 1;
    }
    Ok(Replacements(out))
}

/// The Java template and its rules.
fn build_java_template_data() -> (r: Result<TemplateData, ConfigError>)
    ensures
        match r {
            Ok(d) => d.repository_url@ == QUILT_JAVA_GIT_TEMPLATE@ && rules_follow(
                d.replacements.0@,
                java_table(),
            ),
            Err(ConfigError::InvalidPattern(s)) => s@ == EXCLUDED_FILES@,
        },
        r is Ok <==> regex_compiles(EXCLUDED_FILES@),
{
    let rows = java_rows();
    let replacements = rules_of(&rows)?;
    Ok(TemplateData { repository_url: QUILT_JAVA_GIT_TEMPLATE.to_string(), replacements })
}

/// The Kotlin template and its rules.
fn build_kotlin_template_data() -> (r: Result<TemplateData, ConfigError>)
    ensures
        match r {
            Ok(d) => d.repository_url@ == QUILT_KOTLIN_GIT_TEMPLATE@ && rules_follow(
                d.replacements.0@,
                kotlin_table(),
            ),
            Err(ConfigError::InvalidPattern(s)) => s@ == EXCLUDED_FILES@,
        },
        r is Ok <==> regex_compiles(EXCLUDED_FILES@),
{
    let rows = kotlin_rows();
    let replacements = rules_of(&rows)?;
    Ok(TemplateData { repository_url: QUILT_KOTLIN_GIT_TEMPLATE.to_string(), replacements })
}

/// The template, and the rules that adapt it, that a configuration starts
/// with for `loader` and `lang`. The one error is an exclusion expression
/// that does not compile.
pub fn build_default_template_data(loader: Loader, lang: Language) -> (r: Result<
    TemplateData,
    ConfigError,
>)
    ensures
        match r {
            Ok(d) => match lang {
                Language::Java => d.repository_url@ == QUILT_JAVA_GIT_TEMPLATE@ && rules_follow(
                    d.replacements.0@,
                    java_table(),
                ),
                Language::Kotlin => d.repository_url@ == QUILT_KOTLIN_GIT_TEMPLATE@
                    && rules_follow(d.replacements.0@, kotlin_table()),
            },
            Err(ConfigError::InvalidPattern(s)) => s@ == EXCLUDED_FILES@,
        },
        r is Ok <==> regex_compiles(EXCLUDED_FILES@),
{
    match loader {
        Loader::Quilt => match lang {
            Language::Java => build_java_template_data(),
            Language::Kotlin => build_kotlin_template_data(),
        },
    }
}

/// The rule set that a configuration starts with for `loader` and `lang`.
pub fn default_replacements(loader: Loader, lang: Language) -> (r: Result<
    Replacements,
    ConfigError,
>)
    ensures
        match r {
            Ok(rules) => match lang {
                Language::Java => rules_follow(rules.0@, java_table()),
                Language::Kotlin => rules_follow(rules.0@, kotlin_table()),
            },
            Err(ConfigError::InvalidPattern(s)) => s@ == EXCLUDED_FILES@,
        },
        r is Ok <==> regex_compiles(EXCLUDED_FILES@),
{
    match build_default_template_data(loader, lang) {
        Ok(d) => Ok(d.replacements),
        Err(e) => Err(e),
    }
}

} // verus!
