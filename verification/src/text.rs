//! Bytes of text: UTF-8 character boundaries, ASCII whitespace, and the
//! decomposition of a buffer into lines.

use vstd::prelude::*;

verus! {

/// Byte index `i` of `s` does not fall inside the multi-byte encoding of a
/// character: it is an edge of `s`, or its byte is not a UTF-8 continuation
/// byte.
pub open spec fn is_char_boundary(s: Seq<u8>, i: int) -> bool
    recommends
        0 <= i <= s.len(),
{
    i == 0 || i == s.len() || !vstd::utf8::is_continuation_byte(s[i])
}

/// ASCII whitespace: tab, line feed, vertical tab, form feed, carriage
/// return, space.
pub open spec fn is_ws(b: u8) -> bool {
    b == 32 || (9 <= b <= 13)
}

/// The bytes at `p` begin the UTF-8 encoding of a Unicode whitespace
/// character: the White_Space set that `char::is_whitespace` accepts — the
/// ASCII whitespace bytes; NEL and NO-BREAK SPACE; OGHAM SPACE MARK; the
/// EN QUAD through HAIR SPACE range, LINE and PARAGRAPH SEPARATOR, NARROW
/// NO-BREAK SPACE, MEDIUM MATHEMATICAL SPACE; and IDEOGRAPHIC SPACE.
pub open spec fn is_ws_at(s: Seq<u8>, p: int) -> bool
    recommends
        0 <= p < s.len(),
{
    ||| is_ws(s[p])
    ||| (p + 1 < s.len() && s[p] == 0xc2 && (s[p + 1] == 0x85 || s[p + 1] == 0xa0))
    ||| (p + 2 < s.len() && s[p] == 0xe1 && s[p + 1] == 0x9a && s[p + 2] == 0x80)
    ||| (p + 2 < s.len() && s[p] == 0xe2 && s[p + 1] == 0x80 && (0x80 <= s[p + 2] <= 0x8a || s[p
        + 2] == 0xa8 || s[p + 2] == 0xa9 || s[p + 2] == 0xaf))
    ||| (p + 2 < s.len() && s[p] == 0xe2 && s[p + 1] == 0x81 && s[p + 2] == 0x9f)
    ||| (p + 2 < s.len() && s[p] == 0xe3 && s[p + 1] == 0x80 && s[p + 2] == 0x80)
}

pub fn ws_char_at(s: &Vec<u8>, p: usize) -> (r: bool)
    requires
        p < s.len(),
    ensures
        r == is_ws_at(s@, p as int),
{
    let b0 = s[p];
    if b0 == 32 || (9 <= b0 && b0 <= 13) {
        return true;
    }
    if s.len() - p > 1 && b0 == 0xc2 {
        let b1 = s[p + 1];
        if b1 == 0x85 || b1 == 0xa0 {
            return true;
        }
    }
    if s.len() - p > 2 {
        let b1 = s[p + 1];
        let b2 = s[p + 2];
        if b0 == 0xe1 && b1 == 0x9a && b2 == 0x80 {
            return true;
        }
        if b0 == 0xe2 && b1 == 0x80 && ((0x80 <= b2 && b2 <= 0x8a) || b2 == 0xa8 || b2 == 0xa9
            || b2 == 0xaf) {
            return true;
        }
        if b0 == 0xe2 && b1 == 0x81 && b2 == 0x9f {
            return true;
        }
        if b0 == 0xe3 && b1 == 0x80 && b2 == 0x80 {
            return true;
        }
    }
    false
}

pub fn is_boundary(s: &Vec<u8>, i: usize) -> (r: bool)
    requires
        i <= s.len(),
    ensures
        r == is_char_boundary(s@, i as int),
{
    i == 0 || i == s.len() || s[i] < 0x80 || s[i] > 0xbf
}

/// Index of the first line feed of `s` at or after `i`, or `s.len()` when
/// there is none.
pub open spec fn first_newline_from(s: Seq<u8>, i: int) -> int
    recommends
        0 <= i <= s.len(),
    decreases s.len() - i,
{
    if i >= s.len() {
        s.len() as int
    } else if s[i] == 10 {
        i
    } else {
        first_newline_from(s, i + 1)
    }
}

pub proof fn lemma_first_newline_unique(s: Seq<u8>, i: int, j: int)
    requires
        0 <= i <= j <= s.len(),
        forall|k: int| i <= k < j ==> s[k] != 10,
        j < s.len() ==> s[j] == 10,
    ensures
        first_newline_from(s, i) == j,
    decreases j - i,
{
    if i < j {
        lemma_first_newline_unique(s, i + 1, j);
    }
}

/// The segment without a final carriage return: applied to the text a line
/// feed ended, so that a CRLF ending marks the same line as a bare line feed.
pub open spec fn strip_cr(l: Seq<u8>) -> Seq<u8> {
    if l.len() > 0 && l[l.len() - 1] == 13 {
        l.drop_last()
    } else {
        l
    }
}

/// The lines of `s`: split at line feeds, no trailing empty line when `s`
/// ends in a line feed, and a carriage return preceding a line feed is not
/// part of the line it ends.
pub open spec fn spec_lines(s: Seq<u8>) -> Seq<Seq<u8>>
    decreases s.len(),
{
    if s.len() == 0 {
        Seq::empty()
    } else {
        let j = first_newline_from(s, 0);
        if 0 <= j < s.len() {
            seq![strip_cr(s.subrange(0, j))] + spec_lines(s.subrange(j + 1, s.len() as int))
        } else {
            seq![s]
        }
    }
}

/// How `spec_lines` unfolds once the position of the first line feed is
/// known.
pub proof fn lemma_spec_lines_step(s: Seq<u8>, j: int)
    requires
        s.len() > 0,
        0 <= j <= s.len(),
        forall|k: int| 0 <= k < j ==> s[k] != 10,
        j < s.len() ==> s[j] == 10,
    ensures
        j == s.len() ==> spec_lines(s) == seq![s],
        j < s.len() ==> spec_lines(s) == seq![strip_cr(s.subrange(0, j))] + spec_lines(
            s.subrange(j + 1, s.len() as int),
        ),
{
    lemma_first_newline_unique(s, 0, j);
}

/// Splits a buffer into its lines, exactly as `spec_lines` describes them.
pub fn split_lines(content: &Vec<u8>) -> (r: Vec<Vec<u8>>)
    ensures
        r@.map_values(|l: Vec<u8>| l@) == spec_lines(content@),
{
    let n = content.len();
    let mut lines: Vec<Vec<u8>> = Vec::new();
    let mut pos: usize = 0;
    proof {
        assert(content@.subrange(0, n as int) =~= content@);
        assert(lines@.map_values(|l: Vec<u8>| l@) =~= Seq::<Seq<u8>>::empty());
    }
    while pos < n
        invariant
            pos <= n,
            n == content@.len(),
            spec_lines(content@) == lines@.map_values(|l: Vec<u8>| l@) + spec_lines(
                content@.subrange(pos as int, n as int),
            ),
        decreases n - pos,
    {
        let mut j: usize = pos;
        while j < n && content[j] != 10
            invariant
                pos <= j <= n,
                n == content@.len(),
                forall|k: int| pos <= k < j ==> content@[k] != 10,
            decreases n - j,
        {
            j += 1;
        }
        let mut line: Vec<u8> = Vec::new();
        let mut k: usize = pos;
        while k < j
            invariant
                pos <= k <= j <= n,
                n == content@.len(),
                line@ == content@.subrange(pos as int, k as int),
            decreases j - k,
        {
            line.push(content[k]);
            k += 1;
        }
        let ghost raw_line = content@.subrange(pos as int, j as int);
        if j < n && line.len() > 0 && line[line.len() - 1] == 13 {
            line.pop();
        }
        proof {
            assert(j < n ==> line@ =~= strip_cr(raw_line));
            assert(j == n ==> line@ =~= raw_line);
            let tail = content@.subrange(pos as int, n as int);
            let jj = j - pos;
            assert(forall|kk: int| 0 <= kk < jj ==> tail[kk] != 10);
            assert(jj < tail.len() ==> tail[jj] == 10);
            lemma_spec_lines_step(tail, jj);
            if j < n {
                assert(tail.subrange(0, jj) =~= raw_line);
                assert(tail.subrange(jj + 1, tail.len() as int) =~= content@.subrange(
                    j + 1,
                    n as int,
                ));
                assert(lines@.push(line).map_values(|l: Vec<u8>| l@) =~= lines@.map_values(
                    |l: Vec<u8>| l@,
                ).push(line@));
                assert(lines@.map_values(|l: Vec<u8>| l@).push(line@) + spec_lines(
                    content@.subrange(j + 1, n as int),
                ) =~= lines@.map_values(|l: Vec<u8>| l@) + (seq![strip_cr(raw_line)] + spec_lines(
                    content@.subrange(j + 1, n as int),
                )));
            } else {
                assert(tail =~= raw_line);
                assert(spec_lines(content@.subrange(n as int, n as int)) =~= Seq::<
                    Seq<u8>,
                >::empty());
                assert(lines@.push(line).map_values(|l: Vec<u8>| l@) =~= lines@.map_values(
                    |l: Vec<u8>| l@,
                ).push(line@));
                assert(lines@.map_values(|l: Vec<u8>| l@).push(line@) + spec_lines(
                    content@.subrange(n as int, n as int),
                ) =~= lines@.map_values(|l: Vec<u8>| l@) + seq![raw_line]);
            }
        }
        lines.push(line);
        pos = if j < n {
            j + 1
        } else {
            n
        };
    }
    proof {
        assert(spec_lines(content@.subrange(n as int, n as int)) =~= Seq::<Seq<u8>>::empty());
        assert(lines@.map_values(|l: Vec<u8>| l@) + Seq::<Seq<u8>>::empty() =~= lines@.map_values(
            |l: Vec<u8>| l@,
        ));
    }
    lines
}

} // verus!
