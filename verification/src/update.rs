//! The update check's decision: compare the running version with the version
//! a release tag names. Parsing and ordering strict semantic versions is the
//! version library's work, behind trusted contracts; the decision is the
//! library's own, over those names.

use vstd::prelude::*;

verus! {

/// The bytes form a strict semantic version that the version library parses.
/// A function of the bytes alone.
pub uninterp spec fn is_semver(s: Seq<u8>) -> bool;

/// The version named by `a` orders after the one named by `b`, in the version
/// library's total order: the numeric triple, then pre-release precedence,
/// then build metadata. Meaningful when both sides are strict semantic
/// versions; a function of the two byte strings alone.
pub uninterp spec fn version_after(a: Seq<u8>, b: Seq<u8>) -> bool;

/// Relies on semver::Version::parse (an error, not a panic, on text it
/// rejects) and on semver::Version's total order: whether `a` names a version
/// that orders after the one `b` names; `None` exactly when either string is
/// not valid UTF-8 or not a strict semantic version.
#[verifier::external_body]
fn version_gt(a: &Vec<u8>, b: &Vec<u8>) -> (r: Option<bool>)
    ensures
        r is Some <==> (is_semver(a@) && is_semver(b@)),
        r matches Some(gt) ==> gt == version_after(a@, b@),
{
    let parsed_a = core::str::from_utf8(a.as_slice()).ok().and_then(
        |t| semver::Version::parse(t).ok(),
    );
    let parsed_b = core::str::from_utf8(b.as_slice()).ok().and_then(
        |t| semver::Version::parse(t).ok(),
    );
    match (parsed_a, parsed_b) {
        (Some(va), Some(vb)) => Some(va > vb),
        _ => None,
    }
}

/// The tag with its leading 'v' markers removed, as release tags carry them.
pub open spec fn spec_strip_v(s: Seq<u8>) -> Seq<u8>
    decreases s.len(),
{
    if s.len() > 0 && s[0] == 118 {
        spec_strip_v(s.drop_first())
    } else {
        s
    }
}

proof fn lemma_strip_v(s: Seq<u8>, i: int)
    requires
        0 <= i <= s.len(),
        forall|k: int| 0 <= k < i ==> s[k] == 118,
        i < s.len() ==> s[i] != 118,
    ensures
        spec_strip_v(s) == s.skip(i),
    decreases i,
{
    if i == 0 {
        assert(s.skip(0) =~= s);
    } else {
        let t = s.drop_first();
        lemma_strip_v(t, i - 1);
        assert(t.skip(i - 1) =~= s.skip(i));
    }
}

pub fn strip_v(s: &Vec<u8>) -> (r: Vec<u8>)
    ensures
        r@ == spec_strip_v(s@),
{
    let n = s.len();
    let mut i: usize = 0;
    while i < n && s[i] == 118
        invariant
            i <= n,
            n == s@.len(),
            forall|k: int| 0 <= k < i ==> s@[k] == 118,
        decreases n - i,
    {
        i += 1;
    }
    let mut r: Vec<u8> = Vec::new();
    let mut k: usize = i;
    while k < n
        invariant
            i <= k <= n,
            n == s@.len(),
            r@ == s@.subrange(i as int, k as int),
        decreases n - k,
    {
        r.push(s[k]);
        k += 1;
    }
    proof {
        lemma_strip_v(s@, i as int);
        assert(s@.subrange(i as int, n as int) =~= s@.skip(i as int));
    }
    r
}

/// The update decision.
#[derive(Clone, Copy, Debug, PartialEq, Eq, Structural)]
pub enum UpdateStatus {
    /// The release tag names a version after the running one.
    Newer,
    /// The running version orders at or after the released one.
    UpToDate,
    /// One of the two version strings is not a strict semantic version.
    Invalid,
}

/// The decision for the running version and a release tag; the tag may carry
/// a leading 'v'.
pub open spec fn spec_update_status(current: Seq<u8>, tag: Seq<u8>) -> UpdateStatus {
    let stripped = spec_strip_v(tag);
    if is_semver(current) && is_semver(stripped) {
        if version_after(stripped, current) {
            UpdateStatus::Newer
        } else {
            UpdateStatus::UpToDate
        }
    } else {
        UpdateStatus::Invalid
    }
}

pub fn update_status(current: &Vec<u8>, tag: &Vec<u8>) -> (r: UpdateStatus)
    ensures
        r == spec_update_status(current@, tag@),
{
    let stripped = strip_v(tag);
    match version_gt(&stripped, current) {
        Some(true) => UpdateStatus::Newer,
        Some(false) => UpdateStatus::UpToDate,
        None => UpdateStatus::Invalid,
    }
}

} // verus!
