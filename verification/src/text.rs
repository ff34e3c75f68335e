//! Submission text handling: byte classification, whitespace trimming, and
//! the submission normalizer that classifies raw text as accepted or
//! rejected.
//!
//! Names are handled as ASCII bytes. The input filter admits only ASCII
//! alphanumeric and whitespace characters, so byte-wise trimming agrees
//! with character-wise trimming on every admissible submission.

use vstd::prelude::*;

use crate::events::Submission;

verus! {

/// Whether `b` is an ASCII whitespace byte (space, tab, line feed, form
/// feed, or carriage return).
pub open spec fn is_space(b: u8) -> bool {
    b == 0x20 || b == 0x09 || b == 0x0a || b == 0x0c || b == 0x0d
}

/// Whether `b` is an ASCII alphanumeric byte.
pub open spec fn is_alnum(b: u8) -> bool {
    (0x30 <= b && b <= 0x39) || (0x41 <= b && b <= 0x5a) || (0x61 <= b && b <= 0x7a)
}

/// Whether every byte of `s` is ASCII alphanumeric or whitespace.
pub open spec fn all_alnum_or_space(s: Seq<u8>) -> bool {
    forall|i: int| 0 <= i < s.len() ==> is_alnum(#[trigger] s[i]) || is_space(s[i])
}

/// `s` with its leading whitespace removed.
pub open spec fn trim_start_spec(s: Seq<u8>) -> Seq<u8>
    decreases s.len(),
{
    if s.len() > 0 && is_space(s[0]) {
        trim_start_spec(s.drop_first())
    } else {
        s
    }
}

/// `s` with its trailing whitespace removed.
pub open spec fn trim_end_spec(s: Seq<u8>) -> Seq<u8>
    decreases s.len(),
{
    if s.len() > 0 && is_space(s.last()) {
        trim_end_spec(s.drop_last())
    } else {
        s
    }
}

/// `s` with leading and trailing whitespace removed.
pub open spec fn trim_spec(s: Seq<u8>) -> Seq<u8> {
    trim_end_spec(trim_start_spec(s))
}

/// Whether `b` is an ASCII whitespace byte.
pub fn is_ascii_space(b: u8) -> (r: bool)
    ensures
        r == is_space(b),
{
    b == 0x20 || b == 0x09 || b == 0x0a || b == 0x0c || b == 0x0d
}

/// Whether `text` consists only of ASCII alphanumeric and whitespace
/// bytes. The host installs this predicate as the input filter of every
/// text input it spawns.
pub fn is_alphanumeric_or_whitespace(text: &Vec<u8>) -> (r: bool)
    ensures
        r == all_alnum_or_space(text@),
{
    let mut i: usize = 0;
    while i < text.len()
        invariant
            i <= text@.len(),
            forall|k: int| 0 <= k < i ==> is_alnum(#[trigger] text@[k]) || is_space(text@[k]),
        decreases text@.len() - i,
    {
        let b = text[i];
        let alnum = (0x30 <= b && b <= 0x39) || (0x41 <= b && b <= 0x5a) || (0x61 <= b && b
            <= 0x7a);
        if !alnum && !is_ascii_space(b) {
            return false;
        }
        i += 1;
    }
    true
}

/// Dropping a leading whitespace byte leaves the start-trimmed value
/// unchanged, for any number of such bytes.
proof fn lemma_trim_start_skip(s: Seq<u8>, lo: int)
    requires
        0 <= lo <= s.len(),
        forall|k: int| 0 <= k < lo ==> is_space(#[trigger] s[k]),
    ensures
        trim_start_spec(s) == trim_start_spec(s.skip(lo)),
    decreases lo,
{
    if lo > 0 {
        assert(s.len() > 0 && is_space(s[0]));
        assert(s.drop_first() =~= s.skip(1));
        lemma_trim_start_skip(s.skip(1), lo - 1);
        assert(s.skip(1).skip(lo - 1) =~= s.skip(lo));
    } else {
        assert(s.skip(0) =~= s);
    }
}

/// Dropping a trailing whitespace byte leaves the end-trimmed value
/// unchanged, for any number of such bytes.
proof fn lemma_trim_end_take(s: Seq<u8>, hi: int)
    requires
        0 <= hi <= s.len(),
        forall|k: int| hi <= k < s.len() ==> is_space(#[trigger] s[k]),
    ensures
        trim_end_spec(s) == trim_end_spec(s.take(hi)),
    decreases s.len() - hi,
{
    if hi < s.len() {
        assert(s.len() > 0 && is_space(s.last()));
        assert(s.drop_last() =~= s.take(s.len() - 1));
        lemma_trim_end_take(s.take(s.len() - 1), hi);
        assert(s.take(s.len() - 1).take(hi) =~= s.take(hi));
    } else {
        assert(s.take(s.len() as int) =~= s);
    }
}

/// Trim leading and trailing ASCII whitespace from `text`.
pub fn trim(text: &Vec<u8>) -> (out: Vec<u8>)
    ensures
        out@ == trim_spec(text@),
{
    let n = text.len();
    let mut lo: usize = 0;
    while lo < n && is_ascii_space(text[lo])
        invariant
            n == text@.len(),
            lo <= n,
            forall|k: int| 0 <= k < lo ==> is_space(#[trigger] text@[k]),
        decreases n - lo,
    {
        lo += 1;
    }
    proof {
        lemma_trim_start_skip(text@, lo as int);
        if lo < text@.len() {
            assert(text@.skip(lo as int)[0] == text@[lo as int]);
        }
        assert(trim_start_spec(text@.skip(lo as int)) == text@.skip(lo as int));
    }
    let mut hi: usize = n;
    while hi > lo && is_ascii_space(text[hi - 1])
        invariant
            n == text@.len(),
            lo <= hi <= n,
            forall|k: int| hi <= k < n ==> is_space(#[trigger] text@[k]),
        decreases hi,
    {
        hi -= 1;
    }
    proof {
        let tail = text@.skip(lo as int);
        lemma_trim_end_take(tail, hi - lo);
        if hi > lo {
            assert(tail.take(hi - lo).last() == text@[hi - 1]);
        }
        assert(trim_end_spec(tail.take(hi - lo)) == tail.take(hi - lo));
        assert(trim_spec(text@) == tail.take(hi - lo));
    }
    let mut out: Vec<u8> = Vec::new();
    let mut i: usize = lo;
    while i < hi
        invariant
            lo <= i <= hi <= n,
            n == text@.len(),
            out@ =~= text@.skip(lo as int).take(i - lo),
        decreases hi - i,
    {
        out.push(text[i]);
        i += 1;
    }
    proof {
        assert(out@ =~= text@.skip(lo as int).take(hi - lo));
    }
    out
}

/// A byte-for-byte copy of `v`.
pub fn copy_bytes(v: &Vec<u8>) -> (r: Vec<u8>)
    ensures
        r@ == v@,
{
    let mut r: Vec<u8> = Vec::new();
    let mut i: usize = 0;
    while i < v.len()
        invariant
            i <= v@.len(),
            r@ =~= v@.take(i as int),
        decreases v@.len() - i,
    {
        r.push(v[i]);
        i += 1;
    }
    proof {
        assert(v@.take(v@.len() as int) =~= v@);
    }
    r
}

/// The submission normalizer: trim the raw text and classify the
/// submission as rejected (trimmed text empty) or accepted (carrying the
/// trimmed text). It knows nothing of widget roles or of the registry.
pub fn normalize(widget: u64, raw: &Vec<u8>) -> (s: Submission)
    ensures
        trim_spec(raw@).len() == 0 ==> s == (Submission::Rejected { widget }),
        trim_spec(raw@).len() > 0 ==> (s matches Submission::Accepted { widget: w, text }
            && w == widget && text@ == trim_spec(raw@)),
{
    let text = trim(raw);
    if text.len() == 0 {
        Submission::Rejected { widget }
    } else {
        Submission::Accepted { widget, text }
    }
}

} // verus!
