//! Symbolic values: a literal, or a field of the project in a case style.

use crate::case::{case_text, Case};
use crate::project::{language_name, loader_name, optional_text, Project};
use vstd::prelude::*;

verus! {

/// What a substitution puts in place of the text it finds.
#[derive(Debug, Clone)]
pub enum ReplacementInsertion {
    Literal(String),
    Name(Case),
    Id(Case),
    Author(Case),
    RepoUrl(Case),
    IssuesUrl(Case),
    HomepageUrl(Case),
    Group(Case),
    MainClass(Case),
    Loader(Case),
    Lang(Case),
}

/// The text that `ins` stands for in `p`.
pub open spec fn insertion_text(ins: ReplacementInsertion, p: Project) -> Seq<char> {
    match ins {
        ReplacementInsertion::Literal(s) => s@,
        ReplacementInsertion::Name(c) => case_text(c, p.title@),
        ReplacementInsertion::Id(c) => case_text(c, p.id@),
        ReplacementInsertion::Author(c) => case_text(c, p.author@),
        ReplacementInsertion::RepoUrl(c) => case_text(c, optional_text(p.repo_url)),
        ReplacementInsertion::IssuesUrl(c) => case_text(c, optional_text(p.issues_url)),
        ReplacementInsertion::HomepageUrl(c) => case_text(c, optional_text(p.homepage_url)),
        ReplacementInsertion::Group(c) => case_text(c, p.maven_group@),
        ReplacementInsertion::MainClass(c) => case_text(c, p.main_class_name@),
        ReplacementInsertion::Loader(c) => case_text(c, loader_name(p.loader)),
        ReplacementInsertion::Lang(c) => case_text(c, language_name(p.lang)),
    }
}

/// The text of an optional field written in a case style.
fn format_optional(c: &Case, o: &Option<String>) -> (r: String)
    ensures
        r@ == case_text(*c, optional_text(*o)),
        o is None ==> r@.len() == 0,
{
    match o {
        Some(s) => {
            assert(optional_text(*o) == s@);
            c.format(s.as_str())
        },
        None => {
            let r = c.format("");
            proof {
                reveal_strlit("");
            }
            assert(optional_text(*o) =~= ""@);
            r
        },
    }
}

impl ReplacementInsertion {
    /// A value equal to this one.
    pub fn copied(&self) -> (r: ReplacementInsertion)
        ensures
            r == *self,
    {
        match self {
            Self::Literal(s) => Self::Literal(s.clone()),
            Self::Name(c) => Self::Name(*c),
            Self::Id(c) => Self::Id(*c),
            Self::Author(c) => Self::Author(*c),
            Self::RepoUrl(c) => Self::RepoUrl(*c),
            Self::IssuesUrl(c) => Self::IssuesUrl(*c),
            Self::HomepageUrl(c) => Self::HomepageUrl(*c),
            Self::Group(c) => Self::Group(*c),
            Self::MainClass(c) => Self::MainClass(*c),
            Self::Loader(c) => Self::Loader(*c),
            Self::Lang(c) => Self::Lang(*c),
        }
    }

    /// The text this value stands for in `project`; an absent optional field
    /// gives the empty text.
    pub fn format(&self, project: &Project) -> (r: String)
        ensures
            r@ == insertion_text(*self, *project),
            self is RepoUrl && project.repo_url is None ==> r@.len() == 0,
            self is IssuesUrl && project.issues_url is None ==> r@.len() == 0,
            self is HomepageUrl && project.homepage_url is None ==> r@.len() == 0,
    {
        match self {
            Self::Literal(s) => s.clone(),
            Self::Name(c) => c.format(project.title.as_str()),
            Self::Id(c) => c.format(project.id.as_str()),
            Self::Author(c) => c.format(project.author.as_str()),
            Self::RepoUrl(c) => format_optional(c, &project.repo_url),
            Self::IssuesUrl(c) => format_optional(c, &project.issues_url),
            Self::HomepageUrl(c) => format_optional(c, &project.homepage_url),
            Self::MainClass(c) => c.format(project.main_class_name.as_str()),
            Self::Loader(c) => {
                let name = project.loader.to_display_string();
                c.format(name.as_str())
            },
            Self::Lang(c) => {
                let name = project.lang.to_display_string();
                c.format(name.as_str())
            },
            Self::Group(c) => c.format(project.maven_group.as_str()),
        }
    }
}

} // verus!
