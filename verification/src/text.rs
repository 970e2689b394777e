//! Lexical helpers for the small text files that sysfs serves.
//!
//! Everything here is stated over `Seq<char>`; the executable functions work
//! on character slices and return sub-slices of their argument.

use vstd::prelude::*;
use vstd::slice::slice_subrange;

verus! {

/// Whether `c` is white space as Unicode defines it (`White_Space`).
pub open spec fn is_space(c: char) -> bool {
    ||| '\u{0009}' <= c <= '\u{000D}'
    ||| c == '\u{0020}'
    ||| c == '\u{0085}'
    ||| c == '\u{00A0}'
    ||| c == '\u{1680}'
    ||| '\u{2000}' <= c <= '\u{200A}'
    ||| c == '\u{2028}'
    ||| c == '\u{2029}'
    ||| c == '\u{202F}'
    ||| c == '\u{205F}'
    ||| c == '\u{3000}'
}

/// The test for being the character `sep`.
pub open spec fn equals(sep: char) -> spec_fn(char) -> bool {
    |c: char| c == sep
}

/// The test for being white space.
pub open spec fn space() -> spec_fn(char) -> bool {
    |c: char| is_space(c)
}

/// The test for being anything but white space.
pub open spec fn non_space() -> spec_fn(char) -> bool {
    |c: char| !is_space(c)
}

/// Length of the longest prefix of `s` that holds no character for which
/// `stop` is true.
pub open spec fn prefix_len(s: Seq<char>, stop: spec_fn(char) -> bool) -> nat
    decreases s.len(),
{
    if s.len() == 0 || stop(s[0]) {
        0
    } else {
        1 + prefix_len(s.drop_first(), stop)
    }
}

/// Length of the longest suffix of `s` that holds no character for which
/// `stop` is true.
pub open spec fn suffix_len(s: Seq<char>, stop: spec_fn(char) -> bool) -> nat
    decreases s.len(),
{
    if s.len() == 0 || stop(s.last()) {
        0
    } else {
        1 + suffix_len(s.drop_last(), stop)
    }
}

/// `s` without its leading white space.
pub open spec fn trim_start(s: Seq<char>) -> Seq<char> {
    s.skip(prefix_len(s, non_space()) as int)
}

/// `s` without its trailing white space.
pub open spec fn trim_end(s: Seq<char>) -> Seq<char> {
    s.take(s.len() - suffix_len(s, non_space()))
}

/// `s` without leading and trailing white space.
pub open spec fn trim(s: Seq<char>) -> Seq<char> {
    trim_end(trim_start(s))
}

/// The pieces of `s` between occurrences of `sep`. There is always at least
/// one piece; pieces may be empty.
pub open spec fn split(s: Seq<char>, sep: char) -> Seq<Seq<char>>
    decreases s.len(),
{
    let n = prefix_len(s, equals(sep));
    if n >= s.len() {
        seq![s]
    } else {
        seq![s.take(n as int)] + split(s.skip(n as int + 1), sep)
    }
}

/// The maximal runs of characters of `s` that are not white space, in order.
pub open spec fn words(s: Seq<char>) -> Seq<Seq<char>>
    decreases s.len(),
{
    if s.len() == 0 {
        Seq::empty()
    } else if is_space(s[0]) {
        words(s.drop_first())
    } else {
        let n = prefix_len(s, space());
        if 0 < n <= s.len() {
            seq![s.take(n as int)] + words(s.skip(n as int))
        } else {
            Seq::empty()
        }
    }
}

/// A prefix that stops at nothing it contains is at most the whole sequence,
/// consists of characters that do not stop it, and ends at one that does.
pub proof fn lemma_prefix_len(s: Seq<char>, stop: spec_fn(char) -> bool)
    ensures
        prefix_len(s, stop) <= s.len(),
        forall|i: int| 0 <= i < prefix_len(s, stop) ==> !stop(#[trigger] s[i]),
        prefix_len(s, stop) < s.len() ==> stop(s[prefix_len(s, stop) as int]),
    decreases s.len(),
{
    if s.len() == 0 || stop(s[0]) {
    } else {
        let t = s.drop_first();
        lemma_prefix_len(t, stop);
        assert forall|i: int| 0 <= i < prefix_len(s, stop) implies !stop(#[trigger] s[i]) by {
            if i > 0 {
                assert(s[i] == t[i - 1]);
            }
        }
        if prefix_len(s, stop) < s.len() {
            assert(s[prefix_len(s, stop) as int] == t[prefix_len(t, stop) as int]);
        }
    }
}

/// A prefix length is characterised by what `lemma_prefix_len` states of it.
pub proof fn lemma_prefix_len_unique(s: Seq<char>, stop: spec_fn(char) -> bool, n: int)
    requires
        0 <= n <= s.len(),
        forall|i: int| 0 <= i < n ==> !stop(#[trigger] s[i]),
        n < s.len() ==> stop(s[n]),
    ensures
        prefix_len(s, stop) == n,
    decreases s.len(),
{
    if s.len() == 0 || stop(s[0]) {
    } else {
        let t = s.drop_first();
        assert forall|i: int| 0 <= i < n - 1 implies !stop(#[trigger] t[i]) by {
            assert(t[i] == s[i + 1]);
        }
        lemma_prefix_len_unique(t, stop, n - 1);
    }
}

/// A suffix length is characterised in the same way, from the other end.
pub proof fn lemma_suffix_len_unique(s: Seq<char>, stop: spec_fn(char) -> bool, n: int)
    requires
        0 <= n <= s.len(),
        forall|i: int| s.len() - n <= i < s.len() ==> !stop(#[trigger] s[i]),
        n < s.len() ==> stop(s[s.len() - n - 1]),
    ensures
        suffix_len(s, stop) == n,
    decreases s.len(),
{
    if s.len() == 0 || stop(s.last()) {
    } else {
        let t = s.drop_last();
        assert forall|i: int| t.len() - (n - 1) <= i < t.len() implies !stop(#[trigger] t[i]) by {
            assert(t[i] == s[i]);
        }
        lemma_suffix_len_unique(t, stop, n - 1);
    }
}

/// Whether `c` is white space, as `char::is_whitespace` has it.
pub fn is_whitespace(c: char) -> (b: bool)
    ensures
        b == is_space(c),
{
    ('\u{0009}' <= c && c <= '\u{000D}') || c == '\u{0020}' || c == '\u{0085}' || c == '\u{00A0}'
        || c == '\u{1680}' || ('\u{2000}' <= c && c <= '\u{200A}') || c == '\u{2028}' || c
        == '\u{2029}' || c == '\u{202F}' || c == '\u{205F}' || c == '\u{3000}'
}

/// The characters of a string slice, in order.
pub fn chars_of(s: &str) -> (v: Vec<char>)
    ensures
        v@ == s@,
{
    let mut v: Vec<char> = Vec::new();
    for c in it: s.chars()
        invariant
            it.seq() == s@,
            v@ == it.seq().take(it.index() as int),
    {
        v.push(c);
    }
    v
}

/// Index of the first `sep` in `s`, or the length of `s` if there is none.
pub fn find(s: &[char], sep: char) -> (n: usize)
    ensures
        n == prefix_len(s@, equals(sep)),
        n <= s@.len(),
{
    let mut n: usize = 0;
    while n < s.len() && s[n] != sep
        invariant
            n <= s@.len(),
            forall|i: int| 0 <= i < n ==> s@[i] != sep,
        decreases s@.len() - n,
    {
        n = n + 1;
    }
    proof {
        lemma_prefix_len_unique(s@, equals(sep), n as int);
    }
    n
}

/// Index of the first white space in `s`, or the length of `s` if there is
/// none.
pub fn find_space(s: &[char]) -> (n: usize)
    ensures
        n == prefix_len(s@, space()),
        n <= s@.len(),
{
    let mut n: usize = 0;
    while n < s.len() && !is_whitespace(s[n])
        invariant
            n <= s@.len(),
            forall|i: int| 0 <= i < n ==> !is_space(s@[i]),
        decreases s@.len() - n,
    {
        n = n + 1;
    }
    proof {
        lemma_prefix_len_unique(s@, space(), n as int);
    }
    n
}

/// `s` without leading and trailing white space.
pub fn trimmed<'a>(s: &'a [char]) -> (t: &'a [char])
    ensures
        t@ == trim(s@),
{
    let mut start: usize = 0;
    while start < s.len() && is_whitespace(s[start])
        invariant
            start <= s@.len(),
            forall|i: int| 0 <= i < start ==> is_space(s@[i]),
        decreases s@.len() - start,
    {
        start = start + 1;
    }
    let mut end: usize = s.len();
    while end > start && is_whitespace(s[end - 1])
        invariant
            start <= end <= s@.len(),
            forall|i: int| end <= i < s@.len() ==> is_space(s@[i]),
        decreases end,
    {
        end = end - 1;
    }
    proof {
        let front = non_space();
        lemma_prefix_len_unique(s@, front, start as int);
        let rest = s@.skip(start as int);
        assert(rest == trim_start(s@));
        assert forall|i: int| rest.len() - (s@.len() - end) <= i < rest.len() implies !front(
            #[trigger] rest[i],
        ) by {
            assert(rest[i] == s@[i + start]);
        }
        if s@.len() - end < rest.len() {
            assert(rest[rest.len() - (s@.len() - end) - 1] == s@[end - 1]);
        }
        lemma_suffix_len_unique(rest, front, s@.len() - end);
        assert(rest.take(rest.len() - (s@.len() - end)) =~= s@.subrange(start as int, end as int));
    }
    slice_subrange(s, start, end)
}

/// Whether two character slices hold the same text.
pub fn same_text(a: &[char], b: &[char]) -> (r: bool)
    ensures
        r == (a@ == b@),
{
    if a.len() != b.len() {
        return false;
    }
    let mut i: usize = 0;
    while i < a.len()
        invariant
            a@.len() == b@.len(),
            i <= a@.len(),
            forall|j: int| 0 <= j < i ==> a@[j] == b@[j],
        decreases a@.len() - i,
    {
        if a[i] != b[i] {
            return false;
        }
        i = i + 1;
    }
    assert(a@ =~= b@);
    true
}

/// Leading white space does not change the words of a text.
pub proof fn lemma_words_skip_spaces(s: Seq<char>, k: int)
    requires
        0 <= k <= s.len(),
        forall|i: int| 0 <= i < k ==> is_space(#[trigger] s[i]),
    ensures
        words(s) == words(s.skip(k)),
    decreases k,
{
    if k == 0 {
        assert(s.skip(0) =~= s);
    } else {
        let t = s.drop_first();
        assert forall|i: int| 0 <= i < k - 1 implies is_space(#[trigger] t[i]) by {
            assert(t[i] == s[i + 1]);
        }
        lemma_words_skip_spaces(t, k - 1);
        assert(t.skip(k - 1) =~= s.skip(k));
    }
}

/// The first word of `s` and what follows it, or nothing if `s` holds no
/// word.
pub fn next_word<'a>(s: &'a [char]) -> (r: Option<(&'a [char], &'a [char])>)
    ensures
        r is None <==> trim_start(s@).len() == 0,
        r is None ==> words(s@) == Seq::<Seq<char>>::empty(),
        r matches Some((word, rest)) ==> {
            let text = trim_start(s@);
            let n = prefix_len(text, space()) as int;
            &&& 0 < n <= text.len()
            &&& word@ == text.take(n)
            &&& rest@ == text.skip(n)
            &&& rest@.len() < s@.len()
            &&& words(s@) == seq![word@] + words(rest@)
        },
{
    let mut k: usize = 0;
    while k < s.len() && is_whitespace(s[k])
        invariant
            k <= s@.len(),
            forall|i: int| 0 <= i < k ==> is_space(s@[i]),
        decreases s@.len() - k,
    {
        k = k + 1;
    }
    let tail = slice_subrange(s, k, s.len());
    proof {
        lemma_words_skip_spaces(s@, k as int);
        lemma_prefix_len_unique(s@, non_space(), k as int);
    }
    if tail.len() == 0 {
        return None;
    }
    let n = find_space(tail);
    proof {
        lemma_prefix_len(tail@, space());
    }
    let word = slice_subrange(tail, 0, n);
    let rest = slice_subrange(tail, n, tail.len());
    Some((word, rest))
}

} // verus!
