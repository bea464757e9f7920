//! Scanning and rewriting of short strings: trimming, prefixes and suffixes,
//! the last occurrence of a character, and replacing characters.

use vstd::prelude::*;
use vstd::string::*;
use crate::text::{chars_of, text_of};

verus! {

/// Whether `char::is_whitespace` holds of `c`: whether the character has the
/// Unicode property White_Space.
pub uninterp spec fn is_white_space(c: char) -> bool;

/// `char::is_whitespace` of the standard library. Assumed: the result depends
/// on the character alone.
pub assume_specification[ char::is_whitespace ](c: char) -> (white: bool)
    ensures
        white == is_white_space(c),
;

/// The string that `str::to_lowercase` makes of `s`.
pub uninterp spec fn lowercase_of(s: Seq<char>) -> Seq<char>;

/// `str::to_lowercase` of the standard library. Assumed: the result depends
/// on the characters of the string alone.
pub assume_specification[ str::to_lowercase ](s: &str) -> (lower: String)
    ensures
        lower@ == lowercase_of(s@),
;

/// How many entries at the start of `white` are set.
pub open spec fn leading(white: Seq<bool>) -> nat
    decreases white.len(),
{
    if white.len() > 0 && white[0] {
        1 + leading(white.drop_first())
    } else {
        0
    }
}

/// How many entries at the end of `white` are set.
pub open spec fn trailing(white: Seq<bool>) -> nat
    decreases white.len(),
{
    if white.len() > 0 && white.last() {
        1 + trailing(white.drop_last())
    } else {
        0
    }
}

/// `s` without the characters at either end that `white` marks: what is left
/// between the marked characters that `s` starts with and those it ends
/// with. `white` has an entry for each character of `s`.
pub open spec fn trimmed_where(s: Seq<char>, white: Seq<bool>) -> Seq<char> {
    if leading(white) >= s.len() {
        Seq::empty()
    } else {
        s.subrange(leading(white) as int, s.len() - trailing(white))
    }
}

/// For each character of `s`, whether it is white space.
pub open spec fn white_mask(s: Seq<char>) -> Seq<bool> {
    s.map_values(|c: char| is_white_space(c))
}

/// `s` without the white space at either end.
pub open spec fn trimmed(s: Seq<char>) -> Seq<char> {
    trimmed_where(s, white_mask(s))
}

proof fn lemma_leading(white: Seq<bool>, n: int)
    requires
        0 <= n <= white.len(),
        forall|k: int| 0 <= k < n ==> white[k],
        n < white.len() ==> !white[n],
    ensures
        leading(white) == n,
    decreases n,
{
    if n > 0 {
        let rest = white.drop_first();
        assert(white[0]);
        assert forall|k: int| 0 <= k < n - 1 implies rest[k] by {
            assert(rest[k] == white[k + 1]);
        }
        if n - 1 < rest.len() {
            assert(rest[n - 1] == white[n]);
        }
        lemma_leading(rest, n - 1);
    }
}

proof fn lemma_trailing(white: Seq<bool>, n: int)
    requires
        0 <= n <= white.len(),
        forall|k: int| n <= k < white.len() ==> white[k],
        n > 0 ==> !white[n - 1],
    ensures
        trailing(white) == white.len() - n,
    decreases white.len() - n,
{
    if n < white.len() {
        let rest = white.drop_last();
        assert(white[white.len() - 1]);
        assert forall|k: int| n <= k < rest.len() implies rest[k] by {
            assert(rest[k] == white[k]);
        }
        if n > 0 {
            assert(rest[n - 1] == white[n - 1]);
        }
        lemma_trailing(rest, n);
    }
}

/// The string made of the characters of `chars` from `from` up to `to`.
pub fn text_of_range(chars: &Vec<char>, from: usize, to: usize) -> (out: String)
    requires
        from <= to <= chars.len(),
    ensures
        out@ == chars@.subrange(from as int, to as int),
{
    let mut out = String::new();
    let mut i: usize = from;
    while i < to
        invariant
            from <= i <= to,
            to <= chars.len(),
            out@ == chars@.subrange(from as int, i as int),
        decreases to - i,
    {
        out.push(chars[i]);
        assert(chars@.subrange(from as int, i + 1) =~= chars@.subrange(from as int, i as int).push(
            chars[i as int],
        ));
        i += 1;
    }
    out
}

/// `chars` without the characters at either end that `white` marks.
pub fn trim_where(chars: &Vec<char>, white: &Vec<bool>) -> (out: String)
    requires
        white.len() == chars.len(),
    ensures
        out@ == trimmed_where(chars@, white@),
{
    let mut start: usize = 0;
    while start < white.len() && white[start]
        invariant
            start <= white.len(),
            forall|k: int| 0 <= k < start ==> white@[k],
        decreases white.len() - start,
    {
        start += 1;
    }
    let mut end: usize = white.len();
    while end > start && white[end - 1]
        invariant
            start <= end <= white.len(),
            forall|k: int| end <= k < white.len() ==> white@[k],
        decreases end,
    {
        end -= 1;
    }
    proof {
        lemma_leading(white@, start as int);
        if start < white.len() {
            lemma_trailing(white@, end as int);
        } else {
            assert(chars@.subrange(start as int, end as int) =~= Seq::<char>::empty());
        }
    }
    text_of_range(chars, start, end)
}

/// `s` without the white space at either end.
pub fn trim(s: &str) -> (out: String)
    ensures
        out@ == trimmed(s@),
{
    let chars = chars_of(s);
    let mut white: Vec<bool> = Vec::new();
    let mut i: usize = 0;
    while i < chars.len()
        invariant
            i <= chars.len(),
            white@ == white_mask(chars@.take(i as int)),
        decreases chars.len() - i,
    {
        white.push(chars[i].is_whitespace());
        assert(white@ =~= white_mask(chars@.take(i + 1)));
        i += 1;
    }
    assert(chars@.take(chars@.len() as int) =~= chars@);
    trim_where(&chars, &white)
}

/// Whether `s` ends with `suffix`.
pub open spec fn has_suffix(s: Seq<char>, suffix: Seq<char>) -> bool {
    suffix.len() <= s.len() && s.skip(s.len() - suffix.len()) == suffix
}

/// Whether `s` starts with `prefix`.
pub open spec fn has_prefix(s: Seq<char>, prefix: Seq<char>) -> bool {
    prefix.len() <= s.len() && s.take(prefix.len() as int) == prefix
}

fn matches_at(chars: &Vec<char>, at: usize, pattern: &Vec<char>) -> (same: bool)
    requires
        at + pattern.len() <= chars.len(),
    ensures
        same == (chars@.subrange(at as int, at + pattern.len()) == pattern@),
{
    let mut i: usize = 0;
    while i < pattern.len()
        invariant
            i <= pattern.len(),
            at + pattern.len() <= chars.len(),
            forall|k: int| 0 <= k < i ==> chars@[at + k] == pattern@[k],
        decreases pattern.len() - i,
    {
        if chars[at + i] != pattern[i] {
            assert(chars@.subrange(at as int, at + pattern.len())[i as int] != pattern@[i as int]);
            return false;
        }
        i += 1;
    }
    assert(chars@.subrange(at as int, at + pattern.len()) =~= pattern@);
    true
}

/// Whether `s` ends with `suffix`.
pub fn ends_with(s: &str, suffix: &str) -> (found: bool)
    ensures
        found == has_suffix(s@, suffix@),
{
    let chars = chars_of(s);
    let pattern = chars_of(suffix);
    if pattern.len() > chars.len() {
        return false;
    }
    let at: usize = chars.len() - pattern.len();
    assert(chars@.skip(at as int) =~= chars@.subrange(at as int, at + pattern.len()));
    matches_at(&chars, at, &pattern)
}

/// What follows `prefix` in `s`, if `s` starts with it.
pub fn strip_prefix(s: &str, prefix: &str) -> (rest: Option<String>)
    ensures
        match rest {
            Some(tail) => has_prefix(s@, prefix@) && tail@ == s@.skip(prefix@.len() as int),
            None => !has_prefix(s@, prefix@),
        },
{
    let chars = chars_of(s);
    let pattern = chars_of(prefix);
    if pattern.len() > chars.len() {
        return None;
    }
    assert(chars@.take(pattern@.len() as int) =~= chars@.subrange(0, 0 + pattern.len()));
    if matches_at(&chars, 0, &pattern) {
        assert(chars@.skip(pattern@.len() as int) =~= chars@.subrange(
            pattern@.len() as int,
            chars@.len() as int,
        ));
        Some(text_of_range(&chars, pattern.len(), chars.len()))
    } else {
        None
    }
}

/// The index of the last `c` in `s`, or -1 where `s` holds none.
pub open spec fn last_index_of(s: Seq<char>, c: char) -> int
    decreases s.len(),
{
    if s.len() == 0 {
        -1
    } else if s.last() == c {
        s.len() - 1
    } else {
        last_index_of(s.drop_last(), c)
    }
}

/// The last index of `c` is a place where `c` stands, and `c` stands nowhere
/// behind it; it is -1 exactly where `c` stands nowhere.
pub proof fn lemma_last_index_of(s: Seq<char>, c: char)
    ensures
        -1 <= last_index_of(s, c) < s.len(),
        last_index_of(s, c) >= 0 ==> s[last_index_of(s, c)] == c,
        forall|k: int| last_index_of(s, c) < k < s.len() ==> s[k] != c,
    decreases s.len(),
{
    if s.len() > 0 && s.last() != c {
        lemma_last_index_of(s.drop_last(), c);
        assert forall|k: int| last_index_of(s, c) < k < s.len() implies s[k] != c by {
            if k < s.len() - 1 {
                assert(s.drop_last()[k] == s[k]);
            }
        }
    }
}

/// The index of the last `c` in `chars`, if there is one.
pub fn find_last(chars: &Vec<char>, c: char) -> (found: Option<usize>)
    ensures
        match found {
            Some(i) => i as int == last_index_of(chars@, c),
            None => last_index_of(chars@, c) == -1,
        },
{
    let mut end: usize = chars.len();
    assert(chars@.take(end as int) =~= chars@);
    while end > 0
        invariant
            end <= chars.len(),
            last_index_of(chars@, c) == last_index_of(chars@.take(end as int), c),
        decreases end,
    {
        let ghost prefix = chars@.take(end as int);
        assert(prefix.last() == chars@[end - 1]);
        assert(prefix.drop_last() =~= chars@.take(end - 1));
        if chars[end - 1] == c {
            return Some(end - 1);
        }
        end -= 1;
    }
    None
}

/// `s` with every character that occurs in `targets` replaced by `with`.
pub open spec fn replaced(s: Seq<char>, targets: Seq<char>, with: char) -> Seq<char> {
    s.map_values(
        |c: char|
            if targets.contains(c) {
                with
            } else {
                c
            },
    )
}

fn occurs_in(targets: &Vec<char>, c: char) -> (found: bool)
    ensures
        found == targets@.contains(c),
{
    let mut i: usize = 0;
    while i < targets.len()
        invariant
            i <= targets.len(),
            forall|k: int| 0 <= k < i ==> targets@[k] != c,
        decreases targets.len() - i,
    {
        if targets[i] == c {
            return true;
        }
        i += 1;
    }
    false
}

/// `s` with every character that occurs in `targets` replaced by `with`.
pub fn replace_chars(s: &str, targets: &str, with: char) -> (out: String)
    ensures
        out@ == replaced(s@, targets@, with),
{
    let chars = chars_of(s);
    let set = chars_of(targets);
    let mut out: Vec<char> = Vec::new();
    let mut i: usize = 0;
    while i < chars.len()
        invariant
            i <= chars.len(),
            chars@ == s@,
            set@ == targets@,
            out@ == replaced(s@.take(i as int), targets@, with),
        decreases chars.len() - i,
    {
        let c = chars[i];
        if occurs_in(&set, c) {
            out.push(with);
        } else {
            out.push(c);
        }
        assert(out@ =~= replaced(s@.take(i + 1), targets@, with));
        i += 1;
    }
    assert(s@.take(s@.len() as int) =~= s@);
    text_of(&out)
}

/// Whether `s` is empty or made of white space only.
pub fn is_blank(s: &str) -> (blank: bool)
    ensures
        blank == (trimmed(s@).len() == 0),
{
    trim(s).as_str().is_empty()
}

} // verus!
