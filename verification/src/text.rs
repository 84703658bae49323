//! Plain-text helpers the detectors and the analyzer need: substring
//! containment over byte ranges, the external-call markers, and the line
//! count of a source text.

use vstd::prelude::*;

verus! {

/// `pat` occurs in `text` starting at offset `i`.
pub open spec fn is_match_at(text: Seq<u8>, pat: Seq<u8>, i: int) -> bool {
    &&& 0 <= i
    &&& i + pat.len() <= text.len()
    &&& text.subrange(i, i + pat.len()) == pat
}

/// `pat` occurs somewhere in `text` as a contiguous substring.
pub open spec fn contains_bytes(text: Seq<u8>, pat: Seq<u8>) -> bool {
    exists|i: int| is_match_at(text, pat, i)
}

/// The bytes of an ASCII string.
pub open spec fn ascii_bytes(s: Seq<char>) -> Seq<u8> {
    s.map_values(|c: char| c as u8)
}

/// Marker of an external call made with an attached value: `.call{`.
pub open spec fn call_marker() -> Seq<u8> {
    ascii_bytes(".call{"@)
}

/// Marker of an external transfer: `.transfer(`.
pub open spec fn transfer_marker() -> Seq<u8> {
    ascii_bytes(".transfer("@)
}

/// Marker of an external send: `.send(`.
pub open spec fn send_marker() -> Seq<u8> {
    ascii_bytes(".send("@)
}

/// Whether `text` contains any of the three external-call markers.
pub open spec fn has_external_call_marker(text: Seq<u8>) -> bool {
    ||| contains_bytes(text, call_marker())
    ||| contains_bytes(text, transfer_marker())
    ||| contains_bytes(text, send_marker())
}

fn call_marker_bytes() -> (r: Vec<u8>)
    ensures
        r@ == call_marker(),
{
    let mut v: Vec<u8> = Vec::new();
    v.push(46);
    v.push(99);
    v.push(97);
    v.push(108);
    v.push(108);
    v.push(123);
    proof {
        reveal_strlit(".call{");
        assert(v@ =~= call_marker());
    }
    v
}

fn transfer_marker_bytes() -> (r: Vec<u8>)
    ensures
        r@ == transfer_marker(),
{
    let mut v: Vec<u8> = Vec::new();
    v.push(46);
    v.push(116);
    v.push(114);
    v.push(97);
    v.push(110);
    v.push(115);
    v.push(102);
    v.push(101);
    v.push(114);
    v.push(40);
    proof {
        reveal_strlit(".transfer(");
        assert(v@ =~= transfer_marker());
    }
    v
}

fn send_marker_bytes() -> (r: Vec<u8>)
    ensures
        r@ == send_marker(),
{
    let mut v: Vec<u8> = Vec::new();
    v.push(46);
    v.push(115);
    v.push(101);
    v.push(110);
    v.push(100);
    v.push(40);
    proof {
        reveal_strlit(".send(");
        assert(v@ =~= send_marker());
    }
    v
}

/// Whether `pat` matches `source[lo..hi]` at offset `i` of that range.
fn match_at(source: &Vec<u8>, lo: usize, hi: usize, pat: &Vec<u8>, i: usize) -> (r: bool)
    requires
        lo <= hi <= source@.len(),
        i + pat@.len() <= hi - lo,
    ensures
        r == is_match_at(source@.subrange(lo as int, hi as int), pat@, i as int),
{
    let ghost text = source@.subrange(lo as int, hi as int);
    let m = pat.len();
    let mut j: usize = 0;
    while j < m
        invariant
            lo <= hi <= source@.len(),
            i + m <= hi - lo,
            m == pat@.len(),
            j <= m,
            text == source@.subrange(lo as int, hi as int),
            forall|k: int| 0 <= k < j ==> text[i + k] == pat@[k],
        decreases m - j,
    {
        if source[lo + i + j] != pat[j] {
            proof {
                assert(text[i + j] == source@[lo + i + j]);
                if text.subrange(i as int, i + m) == pat@ {
                    assert(text.subrange(i as int, i + m)[j as int] == text[i + j]);
                }
            }
            return false;
        }
        j = j + 1;
    }
    proof {
        assert(text.subrange(i as int, i + m) =~= pat@);
    }
    true
}

/// Whether `pat` occurs anywhere in `source[lo..hi]`.
pub fn range_contains(source: &Vec<u8>, lo: usize, hi: usize, pat: &Vec<u8>) -> (r: bool)
    requires
        lo <= hi <= source@.len(),
    ensures
        r == contains_bytes(source@.subrange(lo as int, hi as int), pat@),
{
    let ghost text = source@.subrange(lo as int, hi as int);
    let n = hi - lo;
    let m = pat.len();
    if m == 0 {
        proof {
            assert(text.subrange(0, 0) =~= pat@);
            assert(is_match_at(text, pat@, 0));
        }
        return true;
    }
    if m > n {
        proof {
            assert(forall|i: int| i + pat@.len() > text.len() || i < 0 ==> !is_match_at(text, pat@, i));
        }
        return false;
    }
    let mut i: usize = 0;
    while i <= n - m
        invariant
            lo <= hi <= source@.len(),
            n == hi - lo,
            1 <= m == pat@.len(),
            m <= n,
            i <= n - m + 1,
            text == source@.subrange(lo as int, hi as int),
            forall|k: int| 0 <= k < i ==> !is_match_at(text, pat@, k),
        decreases n - m + 1 - i,
    {
        if match_at(source, lo, hi, pat, i) {
            proof {
                assert(is_match_at(text, pat@, i as int));
            }
            return true;
        }
        i = i + 1;
    }
    proof {
        assert(forall|k: int| is_match_at(text, pat@, k) ==> 0 <= k <= text.len() - pat@.len());
        assert(!contains_bytes(text, pat@));
    }
    false
}

/// Whether `source[lo..hi]` contains one of the three external-call markers.
pub fn range_has_external_call_marker(source: &Vec<u8>, lo: usize, hi: usize) -> (r: bool)
    requires
        lo <= hi <= source@.len(),
    ensures
        r == has_external_call_marker(source@.subrange(lo as int, hi as int)),
{
    let call = call_marker_bytes();
    let transfer = transfer_marker_bytes();
    let send = send_marker_bytes();
    if range_contains(source, lo, hi, &call) {
        true
    } else if range_contains(source, lo, hi, &transfer) {
        true
    } else {
        range_contains(source, lo, hi, &send)
    }
}

/// Number of newline bytes in `s`.
pub open spec fn newline_count(s: Seq<u8>) -> int
    decreases s.len(),
{
    if s.len() == 0 {
        0
    } else {
        newline_count(s.drop_last()) + if s.last() == 10 {
            1int
        } else {
            0int
        }
    }
}

/// Number of newline-delimited segments of `s`: a trailing newline closes the
/// last segment instead of opening an empty one, and an empty text has no
/// segment at all.
pub open spec fn line_count_spec(s: Seq<u8>) -> int {
    if s.len() == 0 {
        0
    } else if s.last() == 10 {
        newline_count(s)
    } else {
        newline_count(s) + 1
    }
}

proof fn lemma_newline_count_bound(s: Seq<u8>)
    ensures
        0 <= newline_count(s) <= s.len(),
    decreases s.len(),
{
    if s.len() > 0 {
        lemma_newline_count_bound(s.drop_last());
    }
}

/// Count the newline-delimited segments of `source`.
pub fn count_lines(source: &Vec<u8>) -> (r: usize)
    ensures
        r as int == line_count_spec(source@),
{
    let n = source.len();
    let mut count: usize = 0;
    let mut i: usize = 0;
    while i < n
        invariant
            n == source@.len(),
            i <= n,
            count <= i,
            count as int == newline_count(source@.subrange(0, i as int)),
        decreases n - i,
    {
        proof {
            let pre = source@.subrange(0, i as int);
            let next = source@.subrange(0, i + 1);
            assert(next.drop_last() =~= pre);
            assert(next.last() == source@[i as int]);
        }
        if source[i] == 10 {
            count = count + 1;
        }
        i = i + 1;
    }
    proof {
        assert(source@.subrange(0, n as int) =~= source@);
    }
    if n == 0 {
        0
    } else if source[n - 1] == 10 {
        count
    } else {
        proof {
            lemma_newline_count_bound(source@.drop_last());
            assert(source@.drop_last() =~= source@.subrange(0, n - 1));
        }
        count + 1
    }
}

} // verus!
