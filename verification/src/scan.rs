//! Scanning one file's content: apply the pattern line by line, extract one
//! context per matching line, and aggregate them into a per-file result.

use crate::context::{
    get_context, spec_context, wf_context, MatchContext, SpecContext, CONTEXT_RADIUS,
};
use crate::pattern::{find_span, Pattern};
use crate::text::{spec_lines, split_lines};
use vstd::prelude::*;

verus! {

/// One file's result: its path, how many lines matched, and one context per
/// matching line, in the file's line order.
pub struct FileMatch {
    pub path: String,
    pub match_count: usize,
    pub matches: Vec<MatchContext>,
}

/// Mathematical image of a `FileMatch`.
#[verifier::ext_equal]
pub ghost struct SpecFileMatch {
    pub path: Seq<char>,
    pub match_count: int,
    pub matches: Seq<SpecContext>,
}

impl View for FileMatch {
    type V = SpecFileMatch;

    open spec fn view(&self) -> SpecFileMatch {
        SpecFileMatch {
            path: self.path@,
            match_count: self.match_count as int,
            matches: self.matches@.map_values(|c: MatchContext| c@),
        }
    }
}

/// The contexts that scanning `lines` yields: one per matching line, in line
/// order, each extracted around the line's first match span.
pub open spec fn spec_contexts(pat: Seq<char>, lines: Seq<Seq<u8>>) -> Seq<SpecContext>
    decreases lines.len(),
{
    if lines.len() == 0 {
        Seq::empty()
    } else {
        let rest = spec_contexts(pat, lines.drop_last());
        match find_span(pat, lines.last()) {
            Some(sp) => rest.push(
                spec_context(lines.last(), sp.0, sp.1, CONTEXT_RADIUS as int),
            ),
            None => rest,
        }
    }
}

/// How many of `lines` hold a match.
pub open spec fn spec_matching_lines(pat: Seq<char>, lines: Seq<Seq<u8>>) -> int
    decreases lines.len(),
{
    if lines.len() == 0 {
        0
    } else {
        spec_matching_lines(pat, lines.drop_last()) + if find_span(pat, lines.last()) is Some {
            1int
        } else {
            0int
        }
    }
}

/// Scanning yields exactly one context per matching line.
pub proof fn lemma_contexts_count(pat: Seq<char>, lines: Seq<Seq<u8>>)
    ensures
        spec_contexts(pat, lines).len() == spec_matching_lines(pat, lines),
    decreases lines.len(),
{
    if lines.len() > 0 {
        lemma_contexts_count(pat, lines.drop_last());
    }
}

/// `c` is the context the extractor gives for the first match of `pat` on the
/// line `l`: it is well-formed, and its marked span reproduces the match's
/// bytes.
pub open spec fn context_from_line(c: SpecContext, pat: Seq<char>, l: Seq<u8>) -> bool {
    match find_span(pat, l) {
        Some(sp) => {
            &&& c == spec_context(l, sp.0, sp.1, CONTEXT_RADIUS as int)
            &&& wf_context(c)
            &&& c.text.subrange(c.start, c.end) == l.subrange(sp.0, sp.1)
        },
        None => false,
    }
}

/// What a returned `FileMatch` says of the pattern, path and content it came
/// from: the path is kept, the contexts are exactly those of the matching
/// lines in line order, the count equals their number, and every context is
/// the extractor's for some line of the file.
pub open spec fn scan_result_ok(
    fm: SpecFileMatch,
    pat: Seq<char>,
    path: Seq<char>,
    content: Seq<u8>,
) -> bool {
    &&& fm.path == path
    &&& fm.matches == spec_contexts(pat, spec_lines(content))
    &&& fm.match_count == fm.matches.len()
    &&& fm.match_count == spec_matching_lines(pat, spec_lines(content))
    &&& forall|i: int|
        0 <= i < fm.matches.len() ==> exists|j: int|
            0 <= j < spec_lines(content).len() && context_from_line(
                #[trigger] fm.matches[i],
                pat,
                spec_lines(content)[j],
            )
}

/// Scans a file's content line by line. Returns a result exactly when some
/// line matches; the result counts the matching lines and carries one
/// well-formed context per matching line, in line order.
#[verifier::loop_isolation(false)]
pub fn scan_content(pattern: &Pattern, path: String, content: &Vec<u8>) -> (r: Option<FileMatch>)
    ensures
        r is Some <==> spec_matching_lines(pattern@, spec_lines(content@)) > 0,
        r matches Some(fm) ==> scan_result_ok(fm@, pattern@, path@, content@),
{
    let lines = split_lines(content);
    let ghost ls = spec_lines(content@);
    let mut found: Vec<MatchContext> = Vec::new();
    let n = lines.len();
    let mut i: usize = 0;
    proof {
        assert(ls.take(0) =~= Seq::<Seq<u8>>::empty());
    }
    while i < n
        invariant
            i <= n,
            found@.map_values(|c: MatchContext| c@) == spec_contexts(pattern@, ls.take(i as int)),
            forall|k: int|
                0 <= k < found@.len() ==> exists|j: int|
                    0 <= j < ls.len() && context_from_line(#[trigger] found@[k]@, pattern@, ls[j]),
        decreases n - i,
    {
        let ghost prefix = ls.take(i as int);
        let line = &lines[i];
        match pattern.find_first(line) {
            Some((ms, me)) => {
                let c = get_context(line, ms, me, CONTEXT_RADIUS);
                proof {
                    assert(context_from_line(c@, pattern@, ls[i as int]));
                    assert(found@.push(c).map_values(|cc: MatchContext| cc@) =~= found@.map_values(
                        |cc: MatchContext| cc@,
                    ).push(c@));
                    assert(ls.take(i + 1).drop_last() =~= prefix);
                    assert(ls.take(i + 1).last() == ls[i as int]);
                }
                found.push(c);
            },
            None => {
                proof {
                    assert(ls.take(i + 1).drop_last() =~= prefix);
                    assert(ls.take(i + 1).last() == ls[i as int]);
                }
            },
        }
        i += 1;
    }
    proof {
        assert(ls.take(n as int) =~= ls);
        lemma_contexts_count(pattern@, ls);
    }
    let count = found.len();
    if count > 0 {
        Some(FileMatch { path, match_count: count, matches: found })
    } else {
        None
    }
}

/// Scanning is a function of the pattern, the path and the content alone: any
/// two results that scanning the same unchanged input can return are one.
pub proof fn lemma_scan_deterministic(
    pat: Seq<char>,
    path: Seq<char>,
    content: Seq<u8>,
    r1: SpecFileMatch,
    r2: SpecFileMatch,
)
    requires
        scan_result_ok(r1, pat, path, content),
        scan_result_ok(r2, pat, path, content),
    ensures
        r1 == r2,
{
    assert(r1 =~= r2);
}

/// Best-effort read policy: a file whose read failed is silently excluded
/// from the results; content that was read is scanned.
pub fn scan_read_result(pattern: &Pattern, path: String, read: Option<Vec<u8>>) -> (r: Option<
    FileMatch,
>)
    ensures
        read is None ==> r is None,
        read matches Some(c) ==> {
            &&& (r is Some <==> spec_matching_lines(pattern@, spec_lines(c@)) > 0)
            &&& (r matches Some(fm) ==> scan_result_ok(fm@, pattern@, path@, c@))
        },
{
    match read {
        Some(content) => scan_content(pattern, path, &content),
        None => None,
    }
}

} // verus!
