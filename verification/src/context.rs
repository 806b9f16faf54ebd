//! Word-bounded context extraction: given a line and a match span inside it,
//! produce the snippet around the match and the match's offsets within the
//! snippet. All offsets are byte offsets; snapping keeps them on UTF-8
//! character boundaries.

use crate::text::{is_boundary, is_char_boundary, is_ws_at, ws_char_at};
use vstd::prelude::*;

verus! {

/// Fixed context radius in bytes on each side of a match.
pub const CONTEXT_RADIUS: usize = 64;

/// A word-bounded snippet of a line, with the match's offsets inside it.
pub struct MatchContext {
    pub text: Vec<u8>,
    pub start: usize,
    pub end: usize,
}

/// Mathematical image of a `MatchContext`.
#[verifier::ext_equal]
pub ghost struct SpecContext {
    pub text: Seq<u8>,
    pub start: int,
    pub end: int,
}

impl View for MatchContext {
    type V = SpecContext;

    open spec fn view(&self) -> SpecContext {
        SpecContext { text: self.text@, start: self.start as int, end: self.end as int }
    }
}

/// The match offsets lie within the snippet, in order, and on character
/// boundaries of it.
pub open spec fn wf_context(c: SpecContext) -> bool {
    &&& 0 <= c.start <= c.end <= c.text.len()
    &&& is_char_boundary(c.text, c.start)
    &&& is_char_boundary(c.text, c.end)
}

/// Left edge of the candidate window: `radius` bytes before the match, capped
/// at the start of the line.
pub open spec fn window_start(ms: int, radius: int) -> int {
    if ms > radius {
        ms - radius
    } else {
        0
    }
}

/// Right edge of the candidate window: `radius` bytes after the match, capped
/// at the end of the line.
pub open spec fn window_end(me: int, radius: int, len: int) -> int {
    if me + radius < len {
        me + radius
    } else {
        len
    }
}

/// One past the position where the last whitespace character of `s[from..to)`
/// begins, or `from` when none begins there: the left edge of the word that
/// ends at `to`. (For a multi-byte whitespace character the snap onto the
/// next boundary finishes the step over it.)
pub open spec fn after_last_ws(s: Seq<u8>, from: int, to: int) -> int
    recommends
        0 <= from <= to <= s.len(),
    decreases to - from,
{
    if to <= from {
        from
    } else if is_ws_at(s, to - 1) {
        to
    } else {
        after_last_ws(s, from, to - 1)
    }
}

/// The position where the first whitespace character of `s[from..to)` begins,
/// or `to` when none begins there: the right edge of the word that starts at
/// `from`.
pub open spec fn first_ws(s: Seq<u8>, from: int, to: int) -> int
    recommends
        0 <= from <= to <= s.len(),
    decreases to - from,
{
    if from >= to {
        to
    } else if is_ws_at(s, from) {
        from
    } else {
        first_ws(s, from + 1, to)
    }
}

/// The first character boundary of `s` at or after `i`, not going past `hi`.
pub open spec fn snap_forward(s: Seq<u8>, i: int, hi: int) -> int
    decreases hi - i,
{
    if i >= hi || is_char_boundary(s, i) {
        i
    } else {
        snap_forward(s, i + 1, hi)
    }
}

/// The last character boundary of `s` at or before `i`, not going below `lo`.
pub open spec fn snap_backward(s: Seq<u8>, i: int, lo: int) -> int
    decreases i - lo,
{
    if i <= lo || is_char_boundary(s, i) {
        i
    } else {
        snap_backward(s, i - 1, lo)
    }
}

/// The snapped left edge of the context around a match starting at `ms`.
pub open spec fn context_start(s: Seq<u8>, ms: int, radius: int) -> int {
    snap_forward(s, after_last_ws(s, window_start(ms, radius), ms), ms)
}

/// The snapped right edge of the context around a match ending at `me`.
pub open spec fn context_end(s: Seq<u8>, me: int, radius: int) -> int {
    snap_backward(s, first_ws(s, me, window_end(me, radius, s.len() as int)), me)
}

/// What `get_context` returns: the slice of the line between the snapped
/// edges, and the match offsets translated into it.
pub open spec fn spec_context(s: Seq<u8>, ms: int, me: int, radius: int) -> SpecContext {
    let cs = context_start(s, ms, radius);
    let ce = context_end(s, me, radius);
    SpecContext { text: s.subrange(cs, ce), start: ms - cs, end: me - cs }
}

/// The snippet around the first match of a line: the candidate window is the
/// match extended by `context_size` bytes on each side; its edges are pulled
/// in to the nearest whitespace boundary around the match, then onto UTF-8
/// character boundaries.
#[verifier::loop_isolation(false)]
#[verifier::rlimit(60)]
pub fn get_context(line: &Vec<u8>, match_start: usize, match_end: usize, context_size: usize) -> (r:
    MatchContext)
    requires
        match_start <= match_end <= line.len(),
        is_char_boundary(line@, match_start as int),
        is_char_boundary(line@, match_end as int),
    ensures
        r@ == spec_context(line@, match_start as int, match_end as int, context_size as int),
        wf_context(r@),
        r@.text.subrange(r@.start, r@.end) == line@.subrange(
            match_start as int,
            match_end as int,
        ),
        is_char_boundary(line@, context_start(line@, match_start as int, context_size as int)),
        is_char_boundary(line@, context_end(line@, match_end as int, context_size as int)),
{
    let ghost s = line@;
    let ghost ms = match_start as int;
    let ghost me = match_end as int;
    let ghost radius = context_size as int;
    let start = if match_start > context_size {
        match_start - context_size
    } else {
        0
    };
    let end = if context_size < line.len() - match_end {
        match_end + context_size
    } else {
        line.len()
    };
    assert(start == window_start(ms, radius));
    assert(end == window_end(me, radius, s.len() as int));

    // left edge of the word around the match start
    let mut cs: usize = match_start;
    while cs > start && !ws_char_at(line, cs - 1)
        invariant
            start <= cs <= match_start,
            match_start <= line.len(),
            s == line@,
            after_last_ws(s, start as int, ms) == after_last_ws(s, start as int, cs as int),
        decreases cs,
    {
        cs -= 1;
    }
    assert(cs == after_last_ws(s, start as int, ms));
    // onto a character boundary
    while cs < match_start && !is_boundary(line, cs)
        invariant
            cs <= match_start <= line.len(),
            s == line@,
            snap_forward(s, after_last_ws(s, start as int, ms), ms) == snap_forward(
                s,
                cs as int,
                ms,
            ),
        decreases match_start - cs,
    {
        cs += 1;
    }
    assert(cs == context_start(s, ms, radius));

    // right edge of the word around the match end
    let mut ce: usize = match_end;
    while ce < end && !ws_char_at(line, ce)
        invariant
            match_end <= ce <= end,
            end <= line.len(),
            s == line@,
            first_ws(s, me, end as int) == first_ws(s, ce as int, end as int),
        decreases end - ce,
    {
        ce += 1;
    }
    assert(ce == first_ws(s, me, end as int));
    // onto a character boundary
    while ce > match_end && !is_boundary(line, ce)
        invariant
            match_end <= ce <= line.len(),
            s == line@,
            snap_backward(s, first_ws(s, me, window_end(me, radius, s.len() as int)), me)
                == snap_backward(s, ce as int, me),
        decreases ce,
    {
        ce -= 1;
    }
    assert(ce == context_end(s, me, radius));

    let mut text: Vec<u8> = Vec::new();
    let mut k: usize = cs;
    while k < ce
        invariant
            cs <= k <= ce <= line.len(),
            s == line@,
            text@ == s.subrange(cs as int, k as int),
        decreases ce - k,
    {
        text.push(line[k]);
        k += 1;
    }
    let r = MatchContext { text, start: match_start - cs, end: match_end - cs };
    proof {
        assert(r@ =~= spec_context(s, ms, me, radius));
        assert(r@.text.subrange(r@.start, r@.end) =~= s.subrange(ms, me));
        if 0 < r@.start < r@.text.len() {
            assert(r@.text[r@.start] == s[ms]);
        }
        if 0 < r@.end < r@.text.len() {
            assert(r@.text[r@.end] == s[me]);
        }
    }
    r
}

} // verus!
