//! Text as sequences of characters: substring search and trimming.

use vstd::prelude::*;
use vstd::string::StrSliceExecFns;

verus! {

/// Whether `c` has the Unicode property `White_Space`, which is what
/// `char::is_whitespace` reports.
pub uninterp spec fn is_white_space(c: char) -> bool;

/// Calls `char::is_whitespace`. The contract only gives the answer its name.
#[verifier::external_body]
fn is_whitespace(c: char) -> (yes: bool)
    ensures
        yes == is_white_space(c),
{
    c.is_whitespace()
}

/// Whether `needle` stands in `hay` at the index `at`.
pub open spec fn occurs_at(hay: Seq<char>, needle: Seq<char>, at: int) -> bool {
    &&& 0 <= at
    &&& at + needle.len() <= hay.len()
    &&& hay.subrange(at, at + needle.len()) =~= needle
}

/// Whether `needle` stands somewhere in `hay`, character for character.
pub open spec fn has_substring(hay: Seq<char>, needle: Seq<char>) -> bool {
    exists|at: int| occurs_at(hay, needle, at)
}

/// `s` without the white space it starts with.
pub open spec fn skip_space(s: Seq<char>) -> Seq<char>
    decreases s.len(),
{
    if s.len() > 0 && is_white_space(s.first()) {
        skip_space(s.drop_first())
    } else {
        s
    }
}

/// `s` without the white space it ends with.
pub open spec fn drop_space(s: Seq<char>) -> Seq<char>
    decreases s.len(),
{
    if s.len() > 0 && is_white_space(s.last()) {
        drop_space(s.drop_last())
    } else {
        s
    }
}

/// `s` without the white space at its two ends.
pub open spec fn trimmed(s: Seq<char>) -> Seq<char> {
    drop_space(skip_space(s))
}

/// The characters of `s`, in order.
pub fn chars_of(s: &str) -> (chars: Vec<char>)
    ensures
        chars@ == s@,
{
    let mut chars: Vec<char> = Vec::new();
    for c in it: s.chars()
        invariant
            it.seq() == s@,
            chars@ == s@.subrange(0, it.index()),
    {
        chars.push(c);
    }
    chars
}

/// Whether `a` and `b` hold the same characters.
pub fn equal(a: &str, b: &str) -> (same: bool)
    ensures
        same == (a@ == b@),
{
    let a_chars = chars_of(a);
    let b_chars = chars_of(b);
    if a_chars.len() != b_chars.len() {
        return false;
    }
    let mut k: usize = 0;
    while k < a_chars.len()
        invariant
            a_chars@ == a@,
            b_chars@ == b@,
            a_chars.len() == b_chars.len(),
            k <= a_chars.len(),
            a@.subrange(0, k as int) == b@.subrange(0, k as int),
        decreases a_chars.len() - k,
    {
        if a_chars[k] != b_chars[k] {
            return false;
        }
        proof {
            assert(a@.subrange(0, k + 1) == a@.subrange(0, k as int).push(a@[k as int]));
            assert(b@.subrange(0, k + 1) == b@.subrange(0, k as int).push(b@[k as int]));
        }
        k += 1;
    }
    proof {
        assert(a@.subrange(0, k as int) == a@);
        assert(b@.subrange(0, k as int) == b@);
    }
    true
}

/// Whether `needle` stands in `hay` at the index `at`.
fn matches_at(hay: &Vec<char>, needle: &Vec<char>, at: usize) -> (found: bool)
    requires
        at + needle.len() <= hay.len(),
    ensures
        found == occurs_at(hay@, needle@, at as int),
{
    let mut k: usize = 0;
    while k < needle.len()
        invariant
            at + needle.len() <= hay.len(),
            k <= needle.len(),
            hay@.subrange(at as int, at + k) == needle@.subrange(0, k as int),
        decreases needle.len() - k,
    {
        if hay[at + k] != needle[k] {
            proof {
                let window = hay@.subrange(at as int, at + needle.len());
                assert(window[k as int] != needle@[k as int]);
            }
            return false;
        }
        proof {
            assert(hay@.subrange(at as int, at + k + 1) == hay@.subrange(at as int, at + k).push(
                hay@[at + k],
            ));
            assert(needle@.subrange(0, k + 1) == needle@.subrange(0, k as int).push(
                needle@[k as int],
            ));
        }
        k += 1;
    }
    proof {
        assert(needle@.subrange(0, k as int) == needle@);
    }
    true
}

/// Whether `needle` stands somewhere in `hay`. The match is by characters and
/// tells upper case from lower case; the empty text stands in every text.
pub fn contains(hay: &str, needle: &str) -> (found: bool)
    ensures
        found == has_substring(hay@, needle@),
{
    let hay_chars = chars_of(hay);
    let needle_chars = chars_of(needle);
    if needle_chars.len() > hay_chars.len() {
        return false;
    }
    let last: usize = hay_chars.len() - needle_chars.len();
    let mut at: usize = 0;
    loop
        invariant
            hay_chars@ == hay@,
            needle_chars@ == needle@,
            last + needle_chars.len() == hay_chars.len(),
            at <= last,
            forall|k: int| 0 <= k < at ==> !occurs_at(hay@, needle@, k),
        decreases last - at,
    {
        if matches_at(&hay_chars, &needle_chars, at) {
            return true;
        }
        if at == last {
            return false;
        }
        at += 1;
    }
}

/// `s` without the white space at its two ends, as `str::trim` gives it.
pub fn trim(s: &str) -> (inner: &str)
    ensures
        inner@ == trimmed(s@),
{
    let chars = chars_of(s);
    let len: usize = chars.len();
    let mut start: usize = 0;
    proof {
        assert(s@.subrange(0, len as int) == s@);
    }
    while start < len && is_whitespace(chars[start])
        invariant
            chars@ == s@,
            len == chars.len(),
            start <= len,
            skip_space(s@) == skip_space(s@.subrange(start as int, len as int)),
        decreases len - start,
    {
        proof {
            let rest = s@.subrange(start as int, len as int);
            assert(rest.drop_first() == s@.subrange(start + 1, len as int));
        }
        start += 1;
    }
    let mut end: usize = len;
    while end > start && is_whitespace(chars[end - 1])
        invariant
            chars@ == s@,
            len == chars.len(),
            start <= end <= len,
            skip_space(s@) == s@.subrange(start as int, len as int),
            trimmed(s@) == drop_space(s@.subrange(start as int, end as int)),
        decreases end - start,
    {
        proof {
            let rest = s@.subrange(start as int, end as int);
            assert(rest.drop_last() == s@.subrange(start as int, end - 1));
        }
        end -= 1;
    }
    s.substring_char(start, end)
}

/// What `skip_space` leaves is the end of `s` from the first character on
/// that is no white space.
pub proof fn lemma_skip_space(s: Seq<char>) -> (from: int)
    ensures
        0 <= from <= s.len(),
        skip_space(s) == s.subrange(from, s.len() as int),
        forall|k: int| 0 <= k < from ==> is_white_space(#[trigger] s[k]),
        from < s.len() ==> !is_white_space(s[from]),
    decreases s.len(),
{
    if s.len() > 0 && is_white_space(s.first()) {
        let rest = s.drop_first();
        let inner = lemma_skip_space(rest);
        assert(rest.subrange(inner, rest.len() as int) == s.subrange(inner + 1, s.len() as int));
        assert forall|k: int| 0 <= k < inner + 1 implies is_white_space(#[trigger] s[k]) by {
            if k > 0 {
                assert(s[k] == rest[k - 1]);
            }
        }
        inner + 1
    } else {
        assert(s == s.subrange(0, s.len() as int));
        0
    }
}

/// What `drop_space` leaves is the start of `s` up to the last character
/// that is no white space.
pub proof fn lemma_drop_space(s: Seq<char>) -> (to: int)
    ensures
        0 <= to <= s.len(),
        drop_space(s) == s.subrange(0, to),
        forall|k: int| to <= k < s.len() ==> is_white_space(#[trigger] s[k]),
        0 < to ==> !is_white_space(s[to - 1]),
    decreases s.len(),
{
    if s.len() > 0 && is_white_space(s.last()) {
        let rest = s.drop_last();
        let inner = lemma_drop_space(rest);
        assert(rest.subrange(0, inner) == s.subrange(0, inner));
        assert forall|k: int| inner <= k < s.len() implies is_white_space(#[trigger] s[k]) by {
            if k < s.len() - 1 {
                assert(s[k] == rest[k]);
            }
        }
        inner
    } else {
        assert(s == s.subrange(0, s.len() as int));
        s.len() as int
    }
}

/// Trimming cuts white space and nothing else: what it leaves is a part of
/// `s` with only white space before and after it, and neither starts nor
/// ends with white space.
pub proof fn lemma_trimmed(s: Seq<char>) -> (part: (int, int))
    ensures
        0 <= part.0 <= part.1 <= s.len(),
        trimmed(s) == s.subrange(part.0, part.1),
        forall|k: int| 0 <= k < part.0 ==> is_white_space(#[trigger] s[k]),
        forall|k: int| part.1 <= k < s.len() ==> is_white_space(#[trigger] s[k]),
        part.0 < part.1 ==> !is_white_space(s[part.0]) && !is_white_space(s[part.1 - 1]),
{
    let from = lemma_skip_space(s);
    let tail = s.subrange(from, s.len() as int);
    let to = lemma_drop_space(tail);
    assert(tail.subrange(0, to) == s.subrange(from, from + to));
    assert forall|k: int| from + to <= k < s.len() implies is_white_space(#[trigger] s[k]) by {
        assert(s[k] == tail[k - from]);
    }
    if to > 0 {
        assert(tail[to - 1] == s[from + to - 1]);
        assert(tail[0] == s[from]);
    }
    (from, from + to)
}

/// Trimming leaves nothing exactly where `s` holds nothing but white space.
pub proof fn lemma_trimmed_empty(s: Seq<char>)
    ensures
        trimmed(s).len() == 0 <==> forall|k: int| 0 <= k < s.len() ==> is_white_space(#[trigger] s[k]),
{
    let part = lemma_trimmed(s);
    if part.0 < part.1 {
        assert(!is_white_space(s[part.0]));
    }
}

/// A text without white space at its ends is left as it is.
pub proof fn lemma_trimmed_keeps(s: Seq<char>)
    requires
        s.len() > 0 ==> !is_white_space(s.first()) && !is_white_space(s.last()),
    ensures
        trimmed(s) == s,
{
}

} // verus!
