//! Which files a substitution rule applies to.

use crate::text::chars_of;
use vstd::prelude::*;

verus! {

#[verifier::external_type_specification]
#[verifier::external_body]
pub struct ExRegex(regex::Regex);

#[verifier::external_type_specification]
#[verifier::external_body]
pub struct ExRegexError(regex::Error);

/// Whether the regular expression written `pattern` matches somewhere in
/// `text`, as `regex` decides it.
pub uninterp spec fn regex_matches(pattern: Seq<char>, text: Seq<char>) -> bool;

/// Whether the regular expression written `pattern` compiles with `regex`'s
/// default settings.
pub uninterp spec fn regex_compiles(pattern: Seq<char>) -> bool;

/// Relies on regex::Regex::new: compiles the expression, or says why it
/// cannot; which of the two depends on the expression's text alone.
#[verifier::external_body]
fn compile_regex(source: &str) -> (r: Result<regex::Regex, regex::Error>)
    ensures
        r is Ok <==> regex_compiles(source@),
{
    regex::Regex::new(source)
}

/// A configuration that cannot be used.
#[derive(Debug, Clone, PartialEq, Eq)]
pub enum ConfigError {
    /// The regular expression does not compile.
    InvalidPattern(String),
}

/// A regular expression together with the text it was compiled from.
#[derive(Debug)]
pub struct Pattern {
    source: String,
    regex: regex::Regex,
}

impl View for Pattern {
    type V = Seq<char>;

    /// The text the expression was compiled from.
    closed spec fn view(&self) -> Seq<char> {
        self.source@
    }
}

impl Pattern {
    /// Compiles `source`; a malformed expression is an error that names it.
    pub fn new(source: &str) -> (r: Result<Pattern, ConfigError>)
        ensures
            r is Ok <==> regex_compiles(source@),
            match r {
                Ok(p) => p@ == source@,
                Err(ConfigError::InvalidPattern(s)) => s@ == source@,
            },
    {
        match compile_regex(source) {
            Ok(regex) => Ok(Pattern { source: source.to_string(), regex }),
            Err(_) => Err(ConfigError::InvalidPattern(source.to_string())),
        }
    }

    /// The text the expression was compiled from.
    pub fn as_str(&self) -> (r: &str)
        ensures
            r@ == self@,
    {
        self.source.as_str()
    }

    /// Relies on regex::Regex::is_match, on the expression that `new`
    /// compiled from this pattern's text: whether it matches anywhere in
    /// `text`.
    #[verifier::external_body]
    pub fn is_match(&self, text: &str) -> (r: bool)
        ensures
            r == regex_matches(self@, text@),
    {
        self.regex.is_match(text)
    }
}

/// The files a rule applies to.
#[derive(Debug)]
pub enum ReplacementFile {
    /// Every file whose path matches `matching`, where given, and does not
    /// match `except_matching`, where given.
    All { matching: Option<Pattern>, except_matching: Option<Pattern> },
    /// The files whose path ends with the components of `path`.
    Only { path: String },
}

/// Whether the path `path` ends with the whole components of `suffix`.
pub open spec fn ends_with_components(path: Seq<char>, suffix: Seq<char>) -> bool {
    ||| suffix.len() == 0
    ||| path == suffix
    ||| (path.len() > suffix.len() && path.subrange(path.len() - suffix.len(), path.len() as int)
        == suffix && path[path.len() - suffix.len() - 1] == '/')
}

/// Whether the matcher `f` selects the file at `path`.
pub open spec fn file_matches(f: ReplacementFile, path: Seq<char>) -> bool {
    match f {
        ReplacementFile::All { matching, except_matching } => {
            &&& (matching is None || regex_matches(matching->0@, path))
            &&& !(except_matching is Some && regex_matches(except_matching->0@, path))
        },
        ReplacementFile::Only { path: suffix } => ends_with_components(path, suffix@),
    }
}

/// Whether `path` ends with the whole components of `suffix`.
pub fn path_ends_with(path: &str, suffix: &str) -> (r: bool)
    ensures
        r == ends_with_components(path@, suffix@),
{
    let pc = chars_of(path);
    let sc = chars_of(suffix);
    let n = pc.len();
    let m = sc.len();
    if m == 0 {
        return true;
    }
    if m > n {
        assert(path@ != suffix@);
        return false;
    }
    let off = n - m;
    let mut k: usize = 0;
    while k < m
        invariant
            pc@ == path@,
            sc@ == suffix@,
            n == pc@.len(),
            m == sc@.len(),
            off + m == n,
            k <= m,
            pc@.subrange(off as int, off + k) == sc@.take(k as int),
        decreases m - k,
    {
        if pc[off + k] != sc[k] {
            assert(pc@.subrange(off as int, n as int)[k as int] != sc@[k as int]);
            assert(path@ != suffix@ || off > 0);
            return false;
        }
        assert(pc@.subrange(off as int, off + k + 1) =~= sc@.take(k + 1));
        k = k + 1;
    }
    assert(sc@.take(m as int) =~= sc@);
    if off == 0 {
        assert(pc@ =~= sc@);
        true
    } else {
        pc[off - 1] == '/'
    }
}

impl ReplacementFile {
    /// Whether this matcher selects the file at `path`, a path relative to
    /// the template's root with `/` between its components.
    pub fn matches(&self, path: &str) -> (r: bool)
        ensures
            r == file_matches(*self, path@),
    {
        match self {
            ReplacementFile::All { matching, except_matching } => {
                let included = match matching {
                    Some(p) => p.is_match(path),
                    None => true,
                };
                let excluded = match except_matching {
                    Some(p) => p.is_match(path),
                    None => false,
                };
                included && !excluded
            },
            ReplacementFile::Only { path: suffix } => path_ends_with(path, suffix.as_str()),
        }
    }
}

} // verus!
