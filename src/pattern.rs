//! Regular expressions, through the `regex` crate.
use vstd::prelude::*;

verus! {

#[verifier::external_type_specification]
#[verifier::external_body]
pub struct ExRegex(regex::Regex);

#[verifier::external_type_specification]
#[verifier::external_body]
pub struct ExRegexError(regex::Error);

/// Whether `regex::Regex::new` accepts `pattern`.
pub uninterp spec fn pattern_compiles(pattern: Seq<char>) -> bool;

/// The text of the leftmost-first match of `pattern` in `text`, as
/// `regex::Regex::find` reports it, or `None` where nothing matches.
pub uninterp spec fn leftmost_match(pattern: Seq<char>, text: Seq<char>) -> Option<Seq<char>>;

/// `pattern` matches somewhere in `text`: matching is a search, not anchored.
pub open spec fn matches_anywhere(pattern: Seq<char>, text: Seq<char>) -> bool {
    leftmost_match(pattern, text) is Some
}

/// A compiled regular expression together with the pattern it came from.
pub struct Pattern {
    re: regex::Regex,
    source: Ghost<Seq<char>>,
}

impl View for Pattern {
    type V = Seq<char>;

    closed spec fn view(&self) -> Seq<char> {
        self.source@
    }
}

impl Pattern {
    /// Relies on `regex::Regex::new`: it fails exactly on the patterns it refuses.
    #[verifier::external_body]
    pub(crate) fn compile(pattern: &str) -> (r: Result<Pattern, regex::Error>)
        ensures
            match r {
                Ok(p) => pattern_compiles(pattern@) && p@ == pattern@,
                Err(_) => !pattern_compiles(pattern@),
            },
    {
        match regex::Regex::new(pattern) {
            Ok(re) => Ok(Pattern { re, source: Ghost(pattern@) }),
            Err(e) => Err(e),
        }
    }

    /// Relies on `regex::Regex::find`: the leftmost-first match, as its text.
    #[verifier::external_body]
    pub(crate) fn find_in(&self, text: &str) -> (r: Option<String>)
        ensures
            match r {
                Some(m) => leftmost_match(self@, text@) == Some(m@),
                None => leftmost_match(self@, text@) is None,
            },
    {
        self.re.find(text).map(|m| m.as_str().to_string())
    }

    /// Relies on `regex::Regex::is_match`: true exactly where `find` reports a match.
    #[verifier::external_body]
    pub(crate) fn is_match(&self, text: &str) -> (r: bool)
        ensures
            r == matches_anywhere(self@, text@),
    {
        self.re.is_match(text)
    }
}

} // verus!
