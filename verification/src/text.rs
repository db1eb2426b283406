//! Searching and slicing of sequences: where an element first occurs, whether
//! one run of characters lies inside another, and the first line of a text.

use vstd::prelude::*;

verus! {

/// The least index of `s` that holds `x`, or the length of `s` when no index does.
pub open spec fn first_index_of<T>(s: Seq<T>, x: T) -> nat
    decreases s.len(),
{
    if s.len() == 0 || s[0] == x {
        0
    } else {
        1 + first_index_of(s.drop_first(), x)
    }
}

/// `x` is nowhere in `s`.
pub open spec fn lacks<T>(s: Seq<T>, x: T) -> bool {
    forall|i: int| 0 <= i < s.len() ==> s[i] != x
}

/// `at` is within `s`, nothing before `at` is `x`, and `at` holds `x` unless it is the end.
pub open spec fn is_first_index_of<T>(s: Seq<T>, x: T, at: int) -> bool {
    &&& 0 <= at <= s.len()
    &&& lacks(s.take(at), x)
    &&& at < s.len() ==> s[at] == x
}

/// `first_index_of` is the position that `is_first_index_of` describes.
pub proof fn lemma_first_index_of<T>(s: Seq<T>, x: T)
    ensures
        is_first_index_of(s, x, first_index_of(s, x) as int),
    decreases s.len(),
{
    if s.len() == 0 || s[0] == x {
    } else {
        let rest = s.drop_first();
        lemma_first_index_of(rest, x);
        let at = first_index_of(rest, x) as int;
        let head = s.take(at + 1);
        assert forall|i: int| 0 <= i < head.len() implies head[i] != x by {
            if i > 0 {
                assert(rest.take(at)[i - 1] == s[i]);
            }
        }
    }
}

/// Only one position is the first index of `x` in `s`.
pub proof fn lemma_first_index_unique<T>(s: Seq<T>, x: T, at: int)
    requires
        is_first_index_of(s, x, at),
    ensures
        first_index_of(s, x) == at,
{
    lemma_first_index_of(s, x);
    let other = first_index_of(s, x) as int;
    if other < at {
        assert(s.take(at)[other] == s[other]);
    } else if at < other {
        assert(s.take(other)[at] == s[at]);
    }
}

/// `needle` occurs in `hay` starting at position `at`.
pub open spec fn occurs_at(hay: Seq<char>, needle: Seq<char>, at: int) -> bool {
    &&& 0 <= at
    &&& at + needle.len() <= hay.len()
    &&& hay.subrange(at, at + needle.len()) == needle
}

/// `needle` occurs somewhere in `hay` as a contiguous run.
pub open spec fn contains_seq(hay: Seq<char>, needle: Seq<char>) -> bool {
    exists|at: int| occurs_at(hay, needle, at)
}

/// The first line of `text`, without its terminator: the characters before the
/// first line feed, less one carriage return that directly precedes that line
/// feed. A text with no line feed is its own first line.
pub open spec fn first_line(text: Seq<char>) -> Seq<char> {
    let at = first_index_of(text, '\n') as int;
    let head = text.take(at);
    if at < text.len() && head.len() > 0 && head.last() == '\r' {
        head.drop_last()
    } else {
        head
    }
}

/// The characters of `s`, in order.
pub fn chars_of(s: &str) -> (v: Vec<char>)
    ensures
        v@ == s@,
{
    let mut v: Vec<char> = Vec::new();
    for c in it: s.chars()
        invariant
            it.seq() == s@,
            v@ == s@.take(it.index()),
    {
        v.push(c);
    }
    v
}

/// Tells whether `needle` lies in `hay` at position `at`. It does not where
/// it would reach beyond the end of `hay`.
pub fn matches_at(hay: &[char], needle: &[char], at: usize) -> (b: bool)
    ensures
        b == occurs_at(hay@, needle@, at as int),
{
    if at > hay.len() || needle.len() > hay.len() - at {
        return false;
    }
    let mut k: usize = 0;
    while k < needle.len()
        invariant
            k <= needle.len(),
            at + needle.len() <= hay.len(),
            forall|j: int| 0 <= j < k ==> hay@[at + j] == needle@[j],
        decreases needle.len() - k,
    {
        if hay[at + k] != needle[k] {
            assert(hay@.subrange(at as int, at + needle.len())[k as int] == hay@[at + k]);
            return false;
        }
        k += 1;
    }
    assert(hay@.subrange(at as int, at + needle.len()) =~= needle@);
    true
}

/// Tells whether `needle` lies anywhere in `hay`. The empty run lies in every text.
pub fn contains_chars(hay: &[char], needle: &[char]) -> (found: bool)
    ensures
        found == contains_seq(hay@, needle@),
{
    if needle.len() > hay.len() {
        return false;
    }
    let last: usize = hay.len() - needle.len();
    let mut at: usize = 0;
    while at < last
        invariant
            last == hay.len() - needle.len(),
            at <= last,
            forall|i: int| 0 <= i < at ==> !occurs_at(hay@, needle@, i),
        decreases last - at,
    {
        if matches_at(hay, needle, at) {
            return true;
        }
        at += 1;
    }
    matches_at(hay, needle, last)
}

/// The first line of `text`; see [`first_line`].
pub fn first_line_of(text: &str) -> (line: String)
    ensures
        line@ == first_line(text@),
{
    let chars = chars_of(text);
    let mut at: usize = 0;
    while at < chars.len() && chars[at] != '\n'
        invariant
            at <= chars.len(),
            lacks(chars@.take(at as int), '\n'),
        decreases chars.len() - at,
    {
        proof {
            let head = chars@.take(at + 1);
            assert forall|i: int| 0 <= i < head.len() implies head[i] != '\n' by {
                if i < at {
                    assert(chars@.take(at as int)[i] == chars@[i]);
                }
            }
        }
        at += 1;
    }
    proof {
        lemma_first_index_unique(chars@, '\n', at as int);
    }
    let mut end: usize = at;
    if at < chars.len() && at > 0 && chars[at - 1] == '\r' {
        end = at - 1;
    }
    assert(text@.subrange(0, end as int) =~= first_line(text@));
    text.substring_char(0, end).to_owned()
}

} // verus!
