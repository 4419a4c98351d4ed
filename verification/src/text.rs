//! Case-insensitive substring matching over raw bytes, and the two
//! classifiers built on it: the rate-limit detector that drives backoff, and
//! the fatal "session lost" detector that aborts a worker's remaining work.
//!
//! Matching is done on UTF-8 bytes with ASCII case folding.  Every phrase
//! looked for is plain ASCII, and bytes of a multi-byte UTF-8 character never
//! equal an ASCII byte, so folding bytes is equivalent to folding characters.

use vstd::prelude::*;
use vstd::string::StringSliceAdditionalSpecFns;
use vstd::string::StrSliceExecFns;

verus! {

/// ASCII case folding of one byte: upper-case letters map to lower case,
/// everything else is unchanged.
pub open spec fn spec_lower_byte(b: u8) -> u8 {
    if 65 <= b && b <= 90 {
        (b + 32) as u8
    } else {
        b
    }
}

/// The needle `n` occurs in the haystack `h` at offset `i`, comparing bytes
/// after ASCII case folding.
pub open spec fn spec_match_at(h: Seq<u8>, n: Seq<u8>, i: int) -> bool {
    &&& 0 <= i
    &&& i + n.len() <= h.len()
    &&& forall|j: int|
        0 <= j < n.len() ==> spec_lower_byte(h[i + j]) == spec_lower_byte(n[j])
}

/// The needle `n` occurs somewhere in the haystack `h`, up to ASCII case.
pub open spec fn spec_contains_ci(h: Seq<u8>, n: Seq<u8>) -> bool {
    exists|i: int| spec_match_at(h, n, i)
}

fn lower_byte(b: u8) -> (r: u8)
    ensures
        r == spec_lower_byte(b),
{
    if 65 <= b && b <= 90 {
        b + 32
    } else {
        b
    }
}

fn match_at(h: &Vec<u8>, n: &Vec<u8>, i: usize) -> (r: bool)
    requires
        i + n@.len() <= h@.len(),
    ensures
        r == spec_match_at(h@, n@, i as int),
{
    let nl = n.len();
    let hl = h.len();
    let mut j: usize = 0;
    while j < nl
        invariant
            nl == n@.len(),
            hl == h@.len(),
            i + nl <= hl,
            j <= nl,
            forall|k: int|
                0 <= k < j ==> spec_lower_byte(h@[i + k]) == spec_lower_byte(n@[k]),
        decreases nl - j,
    {
        if lower_byte(h[i + j]) != lower_byte(n[j]) {
            return false;
        }
        j += 1;
    }
    true
}

/// Whether `n` occurs in `h` as a contiguous run of bytes, ignoring ASCII
/// case.
pub fn contains_ci(h: &Vec<u8>, n: &Vec<u8>) -> (r: bool)
    ensures
        r == spec_contains_ci(h@, n@),
{
    if n.len() > h.len() {
        return false;
    }
    let end = h.len() - n.len();
    let mut i: usize = 0;
    loop
        invariant
            n@.len() <= h@.len(),
            end == h@.len() - n@.len(),
            i <= end,
            forall|k: int| 0 <= k < i ==> !spec_match_at(h@, n@, k),
        decreases end - i,
    {
        if match_at(h, n, i) {
            assert(spec_match_at(h@, n@, i as int));
            return true;
        }
        if i == end {
            return false;
        }
        i += 1;
    }
}

/// The transport error text indicates that the browser session itself is
/// gone, which is fatal for the worker that owns it.
pub open spec fn spec_session_gone(b: Seq<u8>) -> bool {
    ||| spec_contains_ci(b, "invalid session id".spec_bytes())
    ||| spec_contains_ci(b, "session deleted".spec_bytes())
    ||| spec_contains_ci(b, "not connected to devtools".spec_bytes())
}

/// Classifies a transport error as a fatal loss of the browser session by
/// matching the known fatal phrases in the error text, case-insensitively.
pub fn session_gone(text: &str) -> (r: bool)
    ensures
        r == spec_session_gone(text.spec_bytes()),
{
    let h = text.as_bytes_vec();
    let p1 = "invalid session id".as_bytes_vec();
    let p2 = "session deleted".as_bytes_vec();
    let p3 = "not connected to devtools".as_bytes_vec();
    contains_ci(&h, &p1) || contains_ci(&h, &p2) || contains_ci(&h, &p3)
}

/// A fetched page shows a rate-limit response: the page title mentions the
/// 429 status code, or the markup contains the standard phrase.
pub open spec fn spec_rate_limited(title: Seq<u8>, body: Seq<u8>) -> bool {
    ||| spec_contains_ci(title, "429".spec_bytes())
    ||| spec_contains_ci(body, "too many requests".spec_bytes())
}

/// The rate-limit classifier: decides from a page's title and source markup
/// whether the navigation hit a rate limit, case-insensitively.
pub fn is_rate_limited(title: &str, body: &str) -> (r: bool)
    ensures
        r == spec_rate_limited(title.spec_bytes(), body.spec_bytes()),
{
    let t = title.as_bytes_vec();
    let b = body.as_bytes_vec();
    let p1 = "429".as_bytes_vec();
    let p2 = "too many requests".as_bytes_vec();
    contains_ci(&t, &p1) || contains_ci(&b, &p2)
}

} // verus!
