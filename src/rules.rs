//! Substitution rules and the ordered application of a rule set to a file.

use crate::insertion::{insertion_text, ReplacementInsertion};
use crate::matcher::{file_matches, ReplacementFile};
use crate::project::Project;
use crate::text::{replace_all, replace_literal};
use vstd::prelude::*;

verus! {

/// Replace every occurrence of `replace` by what `with` stands for, in the
/// files that `file` selects.
#[derive(Debug)]
pub struct Replacement {
    pub file: ReplacementFile,
    pub replace: String,
    pub with: ReplacementInsertion,
}

/// An ordered rule set: each rule works on what the rules before it left.
#[derive(Debug)]
pub struct Replacements(pub Vec<Replacement>);

/// The content of the file at `path` after the rules, in order, each on what
/// the earlier ones produced.
pub open spec fn apply_rules(
    rules: Seq<Replacement>,
    path: Seq<char>,
    content: Seq<char>,
    p: Project,
) -> Seq<char>
    decreases rules.len(),
{
    if rules.len() == 0 {
        content
    } else {
        let before = apply_rules(rules.drop_last(), path, content, p);
        let rule = rules.last();
        if file_matches(rule.file, path) {
            replace_all(before, rule.replace@, insertion_text(rule.with, p))
        } else {
            before
        }
    }
}

/// Applying two rule sets one after the other is applying their
/// concatenation: each rule works on the output of all the rules before it,
/// including text that an earlier rule has just put in.
pub proof fn lemma_rules_compose(
    first: Seq<Replacement>,
    second: Seq<Replacement>,
    path: Seq<char>,
    content: Seq<char>,
    p: Project,
)
    ensures
        apply_rules(first + second, path, content, p) == apply_rules(
            second,
            path,
            apply_rules(first, path, content, p),
            p,
        ),
    decreases second.len(),
{
    if second.len() == 0 {
        assert(first + second =~= first);
    } else {
        lemma_rules_compose(first, second.drop_last(), path, content, p);
        assert((first + second).drop_last() =~= first + second.drop_last());
        assert((first + second).last() == second.last());
    }
}

impl Replacements {
    /// The content of the file at `path` (relative to the template's root,
    /// with `/` between components) after every rule that selects the file
    /// has replaced, in the listed order, each occurrence of its text in what
    /// the rules before it produced.
    pub fn apply_to_text(&self, path: &str, content: &str, project: &Project) -> (r: String)
        ensures
            r@ == apply_rules(self.0@, path@, content@, *project),
    {
        let mut current = content.to_string();
        let mut k: usize = 0;
        while k < self.0.len()
            invariant
                k <= self.0@.len(),
                current@ == apply_rules(self.0@.take(k as int), path@, content@, *project),
            decreases self.0@.len() - k,
        {
            let rule = &self.0[k];
            assert(self.0@.take(k + 1).drop_last() =~= self.0@.take(k as int));
            if rule.file.matches(path) {
                let with = rule.with.format(project);
                current = replace_literal(current.as_str(), rule.replace.as_str(), with.as_str());
            }
            k = k + 1;
        }
        assert(self.0@.take(k as int) =~= self.0@);
        current
    }

    /// What to write back to the file at `path`, given what reading it as
    /// text gave: nothing where it could not be read, so that the file is
    /// skipped and left as it is, and the rewritten content otherwise.
    pub fn rewrite_file(&self, path: &str, read: Option<String>, project: &Project) -> (r: Option<
        String,
    >)
        ensures
            read is None ==> r is None,
            read is Some ==> r is Some && r->0@ == apply_rules(
                self.0@,
                path@,
                read->0@,
                *project,
            ),
    {
        match read {
            Some(content) => Some(self.apply_to_text(path, content.as_str(), project)),
            None => None,
        }
    }
}

} // verus!
