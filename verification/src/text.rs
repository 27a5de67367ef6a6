//! Substring search over text, and splitting of text on a separator.
//!
//! Text is compared character by character: an occurrence of a needle is a
//! run of characters of the haystack that equals the needle.

use vstd::prelude::*;

verus! {

/// `needle` occurs in `hay` starting at character `at`.
pub open spec fn occurs_at(hay: Seq<char>, needle: Seq<char>, at: int) -> bool {
    &&& 0 <= at
    &&& at + needle.len() <= hay.len()
    &&& hay.subrange(at, at + needle.len()) == needle
}

/// The first position at or after `from` where `needle` occurs in `hay`.
pub open spec fn find_from(hay: Seq<char>, needle: Seq<char>, from: int) -> Option<int>
    decreases hay.len() + 1 - from,
{
    if from < 0 || from + needle.len() > hay.len() {
        None
    } else if occurs_at(hay, needle, from) {
        Some(from)
    } else {
        find_from(hay, needle, from + 1)
    }
}

/// The first position where `needle` occurs in `hay`.
pub open spec fn find(hay: Seq<char>, needle: Seq<char>) -> Option<int> {
    find_from(hay, needle, 0)
}

/// `needle` occurs somewhere in `hay`.
pub open spec fn contains(hay: Seq<char>, needle: Seq<char>) -> bool {
    exists|at: int| occurs_at(hay, needle, at)
}

/// The pieces of `s` between the occurrences of `sep`, taken from the left
/// and without overlap. There is always at least one piece; a text without
/// the separator is its own single piece.
pub open spec fn split(s: Seq<char>, sep: Seq<char>) -> Seq<Seq<char>>
    decreases s.len(),
{
    if sep.len() == 0 {
        seq![s]
    } else {
        match find(s, sep) {
            Some(at) => {
                proof {
                    lemma_find_from_is_first(s, sep, 0);
                }
                seq![s.subrange(0, at)] + split(s.subrange(at + sep.len(), s.len() as int), sep)
            },
            None => seq![s],
        }
    }
}

/// What `find_from` returns is the least occurrence at or after `from`, and
/// it returns `None` only if there is none.
pub proof fn lemma_find_from_is_first(hay: Seq<char>, needle: Seq<char>, from: int)
    requires
        0 <= from,
    ensures
        match find_from(hay, needle, from) {
            Some(at) => {
                &&& from <= at
                &&& occurs_at(hay, needle, at)
                &&& forall|j: int| from <= j < at ==> !occurs_at(hay, needle, j)
            },
            None => forall|j: int| from <= j ==> !occurs_at(hay, needle, j),
        },
    decreases hay.len() + 1 - from,
{
    if from + needle.len() > hay.len() {
    } else if occurs_at(hay, needle, from) {
    } else {
        lemma_find_from_is_first(hay, needle, from + 1);
    }
}

/// A text contains a needle exactly when a search from its start finds it.
pub proof fn lemma_contains_iff_found(hay: Seq<char>, needle: Seq<char>)
    ensures
        contains(hay, needle) <==> find(hay, needle) is Some,
{
    lemma_find_from_is_first(hay, needle, 0);
}

/// Positions known to hold no occurrence can be skipped.
proof fn lemma_find_from_skip(hay: Seq<char>, needle: Seq<char>, from: int, to: int)
    requires
        0 <= from <= to,
        forall|j: int| from <= j < to ==> !occurs_at(hay, needle, j),
    ensures
        find_from(hay, needle, from) == find_from(hay, needle, to),
    decreases to - from,
{
    if from < to {
        lemma_find_from_skip(hay, needle, from + 1, to);
        if from + needle.len() > hay.len() {
            lemma_find_from_is_first(hay, needle, to);
        }
    }
}

/// A search in a suffix finds what the search in the whole text finds from
/// the suffix's start, shifted by that start.
proof fn lemma_find_in_suffix(hay: Seq<char>, needle: Seq<char>, start: int, from: int)
    requires
        0 <= start <= hay.len(),
        0 <= from,
    ensures
        find_from(hay.subrange(start, hay.len() as int), needle, from) == match find_from(
            hay,
            needle,
            start + from,
        ) {
            Some(at) => Some(at - start),
            None => None,
        },
    decreases hay.len() + 1 - start - from,
{
    let tail = hay.subrange(start, hay.len() as int);
    if from + needle.len() > tail.len() {
    } else {
        assert(tail.subrange(from, from + needle.len()) =~= hay.subrange(
            start + from,
            start + from + needle.len(),
        ));
        if occurs_at(tail, needle, from) {
        } else {
            lemma_find_in_suffix(hay, needle, start, from + 1);
        }
    }
}

/// The characters of `s`, in order.
pub fn chars_of(s: &str) -> (chars: Vec<char>)
    ensures
        chars@ == s@,
{
    let mut chars: Vec<char> = Vec::new();
    for c in it: s.chars()
        invariant
            it.seq() == s@,
            chars@ == s@.take(it.index() as int),
    {
        chars.push(c);
    }
    chars
}

/// Whether `needle` occurs at position `at` of the first `end` characters of
/// `hay`.
fn occurs_here(hay: &Vec<char>, end: usize, needle: &Vec<char>, at: usize) -> (here: bool)
    requires
        end <= hay.len(),
        at + needle.len() <= end,
    ensures
        here == occurs_at(hay@.subrange(0, end as int), needle@, at as int),
{
    let ghost window = hay@.subrange(0, end as int).subrange(at as int, at + needle.len());
    let mut k: usize = 0;
    while k < needle.len()
        invariant
            end <= hay.len(),
            at + needle.len() <= end,
            k <= needle.len(),
            window == hay@.subrange(0, end as int).subrange(at as int, at + needle.len()),
            forall|j: int| 0 <= j < k ==> window[j] == needle@[j],
        decreases needle.len() - k,
    {
        if hay[at + k] != needle[k] {
            return false;
        }
        k += 1;
    }
    assert(window =~= needle@);
    true
}

/// Searches the first `end` characters of `hay` for `needle`, from position
/// `from` on, and returns the first position where it occurs. Where `from`
/// lies behind `end`, or `end` behind the text, nothing is found.
pub fn find_between(hay: &Vec<char>, needle: &Vec<char>, from: usize, end: usize) -> (found:
    Option<usize>)
    ensures
        from <= end <= hay.len() ==> match found {
            Some(at) => find_from(hay@.subrange(0, end as int), needle@, from as int) == Some(
                at as int,
            ),
            None => find_from(hay@.subrange(0, end as int), needle@, from as int) is None,
        },
        !(from <= end <= hay.len()) ==> found is None,
{
    let ghost text = hay@.subrange(0, end as int);
    if from > end || end > hay.len() {
        return None;
    }
    if needle.len() > end {
        return None;
    }
    let last = end - needle.len();
    let mut i: usize = from;
    while i <= last
        invariant
            from <= i,
            end <= hay.len(),
            last + needle.len() == end,
            text == hay@.subrange(0, end as int),
            forall|j: int| from <= j < i ==> !occurs_at(text, needle@, j),
        decreases last - i,
    {
        if occurs_here(hay, end, needle, i) {
            proof {
                lemma_find_from_skip(text, needle@, from as int, i as int);
            }
            return Some(i);
        }
        if i == last {
            proof {
                lemma_find_from_skip(text, needle@, from as int, i + 1);
            }
            return None;
        }
        i += 1;
    }
    proof {
        lemma_find_from_skip(text, needle@, from as int, i as int);
    }
    None
}

/// Whether `needle` occurs in `hay`.
pub fn str_contains(hay: &str, needle: &str) -> (found: bool)
    ensures
        found == contains(hay@, needle@),
{
    let hay_chars = chars_of(hay);
    let needle_chars = chars_of(needle);
    let found = find_between(&hay_chars, &needle_chars, 0, hay_chars.len());
    proof {
        assert(hay_chars@.subrange(0, hay_chars.len() as int) =~= hay@);
        lemma_contains_iff_found(hay@, needle@);
    }
    found.is_some()
}

/// Whether `a` and `b` are the same text.
pub fn same_text(a: &str, b: &str) -> (same: bool)
    ensures
        same == (a@ == b@),
{
    let left = chars_of(a);
    let right = chars_of(b);
    if left.len() != right.len() {
        return false;
    }
    let mut i: usize = 0;
    while i < left.len()
        invariant
            left@ == a@,
            right@ == b@,
            left.len() == right.len(),
            i <= left.len(),
            forall|j: int| 0 <= j < i ==> left@[j] == right@[j],
        decreases left.len() - i,
    {
        if left[i] != right[i] {
            return false;
        }
        i += 1;
    }
    assert(left@ =~= right@);
    true
}

/// The texts of a sequence of strings, in order.
pub open spec fn texts(strings: Seq<String>) -> Seq<Seq<char>> {
    strings.map_values(|s: String| s@)
}

/// Splits `s` on the separator `sep`. An empty separator splits nothing.
pub fn split_text(s: &str, sep: &str) -> (pieces: Vec<String>)
    ensures
        texts(pieces@) == split(s@, sep@),
{
    let chars = chars_of(s);
    let sep_chars = chars_of(sep);
    let mut pieces: Vec<String> = Vec::new();
    if sep_chars.len() == 0 {
        pieces.push(s.to_owned());
        return pieces;
    }
    let len = chars.len();
    let mut start: usize = 0;
    assert(s@.subrange(0, len as int) =~= s@);
    loop
        invariant_except_break
            chars@ == s@,
            sep_chars@ == sep@,
            sep@.len() > 0,
            len == s@.len(),
            start <= len,
            texts(pieces@) + split(s@.subrange(start as int, len as int), sep@) == split(s@, sep@),
        ensures
            texts(pieces@) == split(s@, sep@),
        decreases len - start,
    {
        let ghost rest = s@.subrange(start as int, len as int);
        proof {
            assert(chars@.subrange(0, len as int) =~= s@);
            lemma_find_in_suffix(s@, sep@, start as int, 0);
            lemma_find_from_is_first(s@, sep@, start as int);
        }
        match find_between(&chars, &sep_chars, start, len) {
            Some(at) => {
                let piece = s.substring_char(start, at);
                pieces.push(piece.to_owned());
                proof {
                    assert(rest.subrange(0, at - start) =~= s@.subrange(start as int, at as int));
                    assert(rest.subrange(at - start + sep@.len(), rest.len() as int) =~= s@.subrange(
                        at + sep@.len(),
                        len as int,
                    ));
                }
                start = at + sep_chars.len();
            },
            None => {
                let piece = s.substring_char(start, len);
                pieces.push(piece.to_owned());
                break ;
            },
        }
    }
    pieces
}

} // verus!
