//! A compiled search pattern. The regex engine is an outside collaborator:
//! only its compile and first-match-span operations are relied on, each named
//! or bounded by a trusted contract.

use crate::text::is_char_boundary;
use vstd::prelude::*;

verus! {

#[verifier::external_type_specification]
#[verifier::external_body]
pub struct ExRegex(regex::Regex);

/// The span of the first match of `pattern` in the UTF-8 text whose bytes are
/// `line`, as `regex::Regex::find` returns it; `None` when the line does not
/// match or is not valid UTF-8. The result depends on the pattern and the
/// line alone.
pub uninterp spec fn find_span(pattern: Seq<char>, line: Seq<u8>) -> Option<(int, int)>;

/// A compiled pattern, carrying the pattern text it was compiled from.
pub struct Pattern {
    re: regex::Regex,
    pat: String,
}

impl View for Pattern {
    type V = Seq<char>;

    closed spec fn view(&self) -> Seq<char> {
        self.pat@
    }
}

impl Pattern {
    /// Relies on regex::Regex::new: returns a compiled form of exactly the
    /// pattern given, or an error on a pattern the engine rejects.
    #[verifier::external_body]
    pub fn compile(pattern: &str) -> (r: Option<Pattern>)
        ensures
            r matches Some(p) ==> p@ == pattern@,
    {
        match regex::Regex::new(pattern) {
            Ok(re) => Some(Pattern { re, pat: pattern.to_string() }),
            Err(_) => None,
        }
    }

    /// Relies on regex::Regex::find: the span of the first match, whose byte
    /// offsets the engine documents to satisfy `start <= end`, to stay within
    /// the haystack, and to fall on UTF-8 character boundaries.
    #[verifier::external_body]
    pub fn find_first(&self, line: &Vec<u8>) -> (r: Option<(usize, usize)>)
        ensures
            r is Some <==> find_span(self@, line@) is Some,
            r matches Some(sp) ==> {
                &&& find_span(self@, line@) == Some((sp.0 as int, sp.1 as int))
                &&& sp.0 <= sp.1 <= line@.len()
                &&& is_char_boundary(line@, sp.0 as int)
                &&& is_char_boundary(line@, sp.1 as int)
            },
    {
        match core::str::from_utf8(line.as_slice()) {
            Ok(text) => self.re.find(text).map(|m| (m.start(), m.end())),
            Err(_) => None,
        }
    }

    /// Whether the line holds a match at all; `find_first` decides it.
    pub fn matches_line(&self, line: &Vec<u8>) -> (r: bool)
        ensures
            r == (find_span(self@, line@) is Some),
    {
        self.find_first(line).is_some()
    }
}

} // verus!
