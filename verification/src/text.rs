//! Character sequences: conversion from strings, white space, searching.

use vstd::prelude::*;
use vstd::string::*;

verus! {

/// The characters of `s`, in order.
pub fn to_chars(s: &str) -> (out: Vec<char>)
    ensures
        out@ == s@,
{
    let mut out: Vec<char> = Vec::new();
    for c in it: s.chars()
        invariant
            it.seq() == s@,
            out@ == it.seq().take(it.index()),
    {
        out.push(c);
    }
    out
}

/// Whether `c` has the Unicode property White_Space.
pub open spec fn is_whitespace(c: char) -> bool {
    let n = c as u32;
    ||| 0x09 <= n <= 0x0d
    ||| n == 0x20
    ||| n == 0x85
    ||| n == 0xa0
    ||| n == 0x1680
    ||| 0x2000 <= n <= 0x200a
    ||| n == 0x2028
    ||| n == 0x2029
    ||| n == 0x202f
    ||| n == 0x205f
    ||| n == 0x3000
}

/// Decides [`is_whitespace`].
pub fn char_is_whitespace(c: char) -> (b: bool)
    ensures
        b == is_whitespace(c),
{
    let n: u32 = c as u32;
    (0x09 <= n && n <= 0x0d) || n == 0x20 || n == 0x85 || n == 0xa0 || n == 0x1680 || (0x2000 <= n
        && n <= 0x200a) || n == 0x2028 || n == 0x2029 || n == 0x202f || n == 0x205f || n == 0x3000
}

/// The lower-case form of `c` where `c` is a capital letter of the basic
/// Latin alphabet, and `c` itself otherwise.
pub open spec fn ascii_lower(c: char) -> char {
    if 'A' <= c <= 'Z' {
        ((c as u8 + 32) as u8) as char
    } else {
        c
    }
}

/// `s` with each capital letter of the basic Latin alphabet in lower case.
/// Every character stays at its index.
pub open spec fn folded(s: Seq<char>) -> Seq<char> {
    Seq::new(s.len(), |i: int| ascii_lower(s[i]))
}

/// Computes [`ascii_lower`].
pub fn to_ascii_lower(c: char) -> (lower: char)
    ensures
        lower == ascii_lower(c),
{
    if 'A' <= c && c <= 'Z' {
        ((c as u8) + 32) as char
    } else {
        c
    }
}

/// Computes [`folded`].
pub fn fold(text: &[char]) -> (out: Vec<char>)
    ensures
        out@ == folded(text@),
{
    let mut out: Vec<char> = Vec::new();
    let mut i: usize = 0;
    while i < text.len()
        invariant
            i <= text.len(),
            out.len() == i,
            forall|j: int| 0 <= j < i ==> out@[j] == ascii_lower(text@[j]),
        decreases text.len() - i,
    {
        out.push(to_ascii_lower(text[i]));
        i += 1;
    }
    assert(out@ =~= folded(text@));
    out
}

/// Whether `needle` stands in `hay` at index `i`.
pub open spec fn occurs_at(hay: Seq<char>, needle: Seq<char>, i: int) -> bool {
    &&& 0 <= i
    &&& i + needle.len() <= hay.len()
    &&& hay.subrange(i, i + needle.len()) == needle
}

/// Whether `hay` begins with `needle`.
pub open spec fn starts_with(hay: Seq<char>, needle: Seq<char>) -> bool {
    occurs_at(hay, needle, 0)
}

/// The least index at or after `from` at which `needle` stands in `hay`.
pub open spec fn find_from(hay: Seq<char>, needle: Seq<char>, from: int) -> Option<int>
    decreases hay.len() + 1 - from,
{
    if from < 0 || from + needle.len() > hay.len() {
        None
    } else if occurs_at(hay, needle, from) {
        Some(from)
    } else {
        find_from(hay, needle, from + 1)
    }
}

/// The least index at which `needle` stands in `hay`.
pub open spec fn find(hay: Seq<char>, needle: Seq<char>) -> Option<int> {
    find_from(hay, needle, 0)
}

/// Whether `needle` stands somewhere in `hay`.
pub open spec fn contains(hay: Seq<char>, needle: Seq<char>) -> bool {
    find(hay, needle) is Some
}

/// `find_from` returns the least match at or after `from`, and `None` only
/// where there is no such match.
pub proof fn lemma_find_from(hay: Seq<char>, needle: Seq<char>, from: int)
    requires
        0 <= from,
    ensures
        match find_from(hay, needle, from) {
            Some(i) => {
                &&& from <= i
                &&& occurs_at(hay, needle, i)
                &&& forall|j: int| from <= j < i ==> !occurs_at(hay, needle, j)
            },
            None => forall|j: int| from <= j ==> !occurs_at(hay, needle, j),
        },
    decreases hay.len() + 1 - from,
{
    if from + needle.len() > hay.len() {
    } else if occurs_at(hay, needle, from) {
    } else {
        lemma_find_from(hay, needle, from + 1);
    }
}

/// `contains` holds exactly where `needle` stands at some index of `hay`.
pub proof fn lemma_contains(hay: Seq<char>, needle: Seq<char>)
    ensures
        contains(hay, needle) <==> exists|i: int| occurs_at(hay, needle, i),
{
    lemma_find_from(hay, needle, 0);
    if contains(hay, needle) {
        assert(occurs_at(hay, needle, find(hay, needle).unwrap()));
    }
}

/// A match that no earlier match precedes is the one that `find` returns.
pub proof fn lemma_find_is(hay: Seq<char>, needle: Seq<char>, i: int)
    requires
        occurs_at(hay, needle, i),
        forall|j: int| 0 <= j < i ==> !occurs_at(hay, needle, j),
    ensures
        find(hay, needle) == Some(i),
{
    lemma_find_from(hay, needle, 0);
}

/// The least index at which the character `c` stands in `s`.
pub open spec fn index_of(s: Seq<char>, c: char) -> Option<int> {
    find(s, seq![c])
}

/// Decides [`occurs_at`].
pub fn matches_at(hay: &[char], needle: &[char], i: usize) -> (b: bool)
    ensures
        b == occurs_at(hay@, needle@, i as int),
{
    if needle.len() > hay.len() || i > hay.len() - needle.len() {
        return false;
    }
    let mut k: usize = 0;
    while k < needle.len()
        invariant
            k <= needle.len(),
            i + needle.len() <= hay.len(),
            forall|j: int| 0 <= j < k ==> hay@[i + j] == needle@[j],
        decreases needle.len() - k,
    {
        if hay[i + k] != needle[k] {
            proof {
                let sub = hay@.subrange(i as int, i + needle.len());
                assert(sub[k as int] == hay@[i + k]);
            }
            return false;
        }
        k += 1;
    }
    assert(hay@.subrange(i as int, i + needle.len()) =~= needle@);
    true
}

/// Decides [`starts_with`].
pub fn begins_with(hay: &[char], needle: &[char]) -> (b: bool)
    ensures
        b == starts_with(hay@, needle@),
{
    matches_at(hay, needle, 0)
}

/// Computes [`find`].
pub fn find_in(hay: &[char], needle: &[char]) -> (r: Option<usize>)
    ensures
        match r {
            Some(i) => find(hay@, needle@) == Some(i as int) && i + needle.len() <= hay.len(),
            None => find(hay@, needle@) is None,
        },
{
    if needle.len() > hay.len() {
        return None;
    }
    let last: usize = hay.len() - needle.len();
    let mut i: usize = 0;
    loop
        invariant
            last == hay.len() - needle.len(),
            i <= last,
            find(hay@, needle@) == find_from(hay@, needle@, i as int),
        decreases last - i,
    {
        if matches_at(hay, needle, i) {
            return Some(i);
        }
        if i == last {
            assert(find_from(hay@, needle@, i + 1) is None);
            return None;
        }
        i += 1;
    }
}

/// Decides [`contains`].
pub fn contains_in(hay: &[char], needle: &[char]) -> (b: bool)
    ensures
        b == contains(hay@, needle@),
        b <==> exists|i: int| occurs_at(hay@, needle@, i),
{
    proof {
        lemma_contains(hay@, needle@);
    }
    find_in(hay, needle).is_some()
}

/// The least index at or after `from` at which `c` stands in `text`.
pub fn position_of(text: &[char], c: char, from: usize) -> (r: Option<usize>)
    requires
        from <= text.len(),
    ensures
        match r {
            Some(i) => from <= i < text.len() && index_of(text@.skip(from as int), c) == Some(
                i - from,
            ),
            None => index_of(text@.skip(from as int), c) is None,
        },
{
    let ghost rest = text@.skip(from as int);
    let ghost needle = seq![c];
    let mut i: usize = from;
    while i < text.len()
        invariant
            from <= i <= text.len(),
            rest == text@.skip(from as int),
            needle == seq![c],
            forall|j: int| 0 <= j < i - from ==> !occurs_at(rest, needle, j),
        decreases text.len() - i,
    {
        if text[i] == c {
            proof {
                assert(rest.subrange(i - from, i - from + 1) =~= needle);
                lemma_find_is(rest, needle, i - from);
            }
            return Some(i);
        }
        proof {
            if occurs_at(rest, needle, i - from) {
                assert(rest.subrange(i - from, i - from + 1)[0] == needle[0]);
            }
        }
        i += 1;
    }
    proof {
        lemma_find_from(rest, needle, 0);
    }
    None
}

/// Whether two character sequences are equal.
pub fn same_chars(a: &[char], b: &[char]) -> (r: bool)
    ensures
        r == (a@ == b@),
{
    if a.len() != b.len() {
        return false;
    }
    let r = matches_at(a, b, 0);
    assert(a@.subrange(0, a@.len() as int) =~= a@);
    r
}

/// The number of white-space characters at the start of `s`.
pub open spec fn leading_whitespace(s: Seq<char>) -> nat
    decreases s.len(),
{
    if s.len() > 0 && is_whitespace(s[0]) {
        1 + leading_whitespace(s.drop_first())
    } else {
        0
    }
}

/// The number of white-space characters at the end of `s`.
pub open spec fn trailing_whitespace(s: Seq<char>) -> nat
    decreases s.len(),
{
    if s.len() > 0 && is_whitespace(s.last()) {
        1 + trailing_whitespace(s.drop_last())
    } else {
        0
    }
}

/// The number of characters at the start of `s` before its first white space.
pub open spec fn leading_word(s: Seq<char>) -> nat
    decreases s.len(),
{
    if s.len() > 0 && !is_whitespace(s[0]) {
        1 + leading_word(s.drop_first())
    } else {
        0
    }
}

/// `s` without its leading white space.
pub open spec fn trim_start(s: Seq<char>) -> Seq<char> {
    s.skip(leading_whitespace(s) as int)
}

/// `s` without its trailing white space.
pub open spec fn trim_end(s: Seq<char>) -> Seq<char> {
    s.take(s.len() - trailing_whitespace(s))
}

/// `s` without its leading and trailing white space.
pub open spec fn trim(s: Seq<char>) -> Seq<char> {
    trim_end(trim_start(s))
}

/// A run of `n` white-space characters that ends `s` or is followed by another
/// character is the leading white space of `s`.
pub proof fn lemma_leading_whitespace(s: Seq<char>, n: int)
    requires
        0 <= n <= s.len(),
        forall|j: int| 0 <= j < n ==> is_whitespace(s[j]),
        n < s.len() ==> !is_whitespace(s[n]),
    ensures
        leading_whitespace(s) == n,
    decreases n,
{
    if n > 0 {
        let rest = s.drop_first();
        assert forall|j: int| 0 <= j < n - 1 implies is_whitespace(rest[j]) by {
            assert(rest[j] == s[j + 1]);
        }
        if n - 1 < rest.len() {
            assert(rest[n - 1] == s[n]);
        }
        lemma_leading_whitespace(rest, n - 1);
    }
}

/// The counterpart of [`lemma_leading_whitespace`] for the end of `s`.
pub proof fn lemma_trailing_whitespace(s: Seq<char>, n: int)
    requires
        0 <= n <= s.len(),
        forall|j: int| s.len() - n <= j < s.len() ==> is_whitespace(s[j]),
        n < s.len() ==> !is_whitespace(s[s.len() - n - 1]),
    ensures
        trailing_whitespace(s) == n,
    decreases n,
{
    if n > 0 {
        let rest = s.drop_last();
        assert forall|j: int| rest.len() - (n - 1) <= j < rest.len() implies is_whitespace(
            rest[j],
        ) by {
            assert(rest[j] == s[j]);
        }
        if n - 1 < rest.len() {
            assert(rest[rest.len() - (n - 1) - 1] == s[s.len() - n - 1]);
        }
        lemma_trailing_whitespace(rest, n - 1);
    }
}

/// The counterpart of [`lemma_leading_whitespace`] for [`leading_word`].
pub proof fn lemma_leading_word(s: Seq<char>, n: int)
    requires
        0 <= n <= s.len(),
        forall|j: int| 0 <= j < n ==> !is_whitespace(s[j]),
        n < s.len() ==> is_whitespace(s[n]),
    ensures
        leading_word(s) == n,
    decreases n,
{
    if n > 0 {
        let rest = s.drop_first();
        assert forall|j: int| 0 <= j < n - 1 implies !is_whitespace(rest[j]) by {
            assert(rest[j] == s[j + 1]);
        }
        if n - 1 < rest.len() {
            assert(rest[n - 1] == s[n]);
        }
        lemma_leading_word(rest, n - 1);
    }
}

/// The index of the first character at or after `from` that is no white space.
pub fn skip_whitespace(text: &[char], from: usize) -> (to: usize)
    requires
        from <= text.len(),
    ensures
        from <= to <= text.len(),
        to == from + leading_whitespace(text@.skip(from as int)),
        text@.skip(to as int) == trim_start(text@.skip(from as int)),
{
    let mut to: usize = from;
    while to < text.len() && char_is_whitespace(text[to])
        invariant
            from <= to <= text.len(),
            forall|j: int| from <= j < to ==> is_whitespace(text@[j]),
        decreases text.len() - to,
    {
        to += 1;
    }
    proof {
        let rest = text@.skip(from as int);
        lemma_leading_whitespace(rest, to - from);
        assert(rest.skip(to - from) =~= text@.skip(to as int));
    }
    to
}

/// The index of the first white-space character at or after `from`.
pub fn skip_word(text: &[char], from: usize) -> (to: usize)
    requires
        from <= text.len(),
    ensures
        from <= to <= text.len(),
        to == from + leading_word(text@.skip(from as int)),
{
    let mut to: usize = from;
    while to < text.len() && !char_is_whitespace(text[to])
        invariant
            from <= to <= text.len(),
            forall|j: int| from <= j < to ==> !is_whitespace(text@[j]),
        decreases text.len() - to,
    {
        to += 1;
    }
    proof {
        lemma_leading_word(text@.skip(from as int), to - from);
    }
    to
}

/// The bounds of `text` without its leading and trailing white space.
pub fn trim_bounds(text: &[char]) -> (bounds: (usize, usize))
    ensures
        bounds.0 <= bounds.1 <= text.len(),
        text@.subrange(bounds.0 as int, bounds.1 as int) == trim(text@),
{
    let start: usize = skip_whitespace(text, 0);
    let mut end: usize = text.len();
    while end > start && char_is_whitespace(text[end - 1])
        invariant
            start <= end <= text.len(),
            forall|j: int| end <= j < text.len() ==> is_whitespace(text@[j]),
        decreases end,
    {
        end -= 1;
    }
    proof {
        assert(text@.skip(0) =~= text@);
        let rest = trim_start(text@);
        assert(rest == text@.skip(start as int));
        lemma_trailing_whitespace(rest, text.len() - end);
        assert(rest.take(end - start) =~= text@.subrange(start as int, end as int));
    }
    (start, end)
}

/// `s` without its leading and trailing white space.
pub fn trimmed(s: &str) -> (out: &str)
    ensures
        out@ == trim(s@),
{
    let chars = to_chars(s);
    let (start, end) = trim_bounds(chars.as_slice());
    s.substring_char(start, end)
}

/// Whether `c` is a letter or a digit: what `char::is_alphanumeric` of the
/// standard library returns for it.
pub uninterp spec fn alphanumeric(c: char) -> bool;

/// Whether `c` is a letter or a digit, by `char::is_alphanumeric` of the
/// standard library. The contract claims only that the outcome is a
/// function of the character, and gives that function its name.
#[verifier::external_body]
pub(crate) fn is_alphanumeric(c: char) -> (b: bool)
    ensures
        b == alphanumeric(c),
{
    c.is_alphanumeric()
}

/// Whether `c` can stand in a word: a letter, a digit or an underscore.
/// Among the basic Latin characters these are `a` to `z`, `A` to `Z`, `0`
/// to `9` and `_`; of the characters beyond them, [`alphanumeric`] says
/// which are letters and digits.
pub open spec fn is_word_char(c: char) -> bool {
    if c as u32 <= 0x7f {
        ('a' <= c <= 'z') || ('A' <= c <= 'Z') || ('0' <= c <= '9') || c == '_'
    } else {
        alphanumeric(c)
    }
}

/// Decides [`is_word_char`].
pub fn char_is_word(c: char) -> (b: bool)
    ensures
        b == is_word_char(c),
{
    if c as u32 <= 0x7f {
        ('a' <= c && c <= 'z') || ('A' <= c && c <= 'Z') || ('0' <= c && c <= '9') || c == '_'
    } else {
        is_alphanumeric(c)
    }
}

/// Whether a word could begin at index `i` of `text`: the text begins
/// there, or the character before is none of a word.
pub open spec fn word_begins(text: Seq<char>, i: int) -> bool {
    i <= 0 || i > text.len() || !is_word_char(text[i - 1])
}

/// Whether a word could end before index `i` of `text`: the text ends
/// there, or the character at `i` is none of a word.
pub open spec fn word_ends(text: Seq<char>, i: int) -> bool {
    i < 0 || i >= text.len() || !is_word_char(text[i])
}

/// Whether `word` stands at index `i` of `text` and begins a word there;
/// where `whole` is set, it must end the word too.
pub open spec fn stands_at(text: Seq<char>, word: Seq<char>, whole: bool, i: int) -> bool {
    &&& occurs_at(text, word, i)
    &&& word_begins(text, i)
    &&& whole ==> word_ends(text, i + word.len())
}

/// The least index at or after `from` at which `word` stands in `text` in
/// the sense of [`stands_at`].
pub open spec fn first_standing(text: Seq<char>, word: Seq<char>, whole: bool, from: int) -> Option<
    int,
>
    decreases text.len() + 1 - from,
{
    if from < 0 || from + word.len() > text.len() {
        None
    } else if stands_at(text, word, whole, from) {
        Some(from)
    } else {
        first_standing(text, word, whole, from + 1)
    }
}

/// The least index at which `word` stands in `text` as a word of its own.
pub open spec fn find_word(text: Seq<char>, word: Seq<char>) -> Option<int> {
    first_standing(text, word, true, 0)
}

/// The least index at which `word` stands in `text` at the beginning of a
/// word.
pub open spec fn find_word_start(text: Seq<char>, word: Seq<char>) -> Option<int> {
    first_standing(text, word, false, 0)
}

/// Whether `word` stands somewhere in `text` as a word of its own: with the
/// edge of the text, or a character that is no letter, digit or underscore,
/// on each side.
pub open spec fn has_word(text: Seq<char>, word: Seq<char>) -> bool {
    find_word(text, word) is Some
}

/// Whether the words `first` and `second` stand somewhere in `text` as
/// words of their own with white space, and nothing else, between them;
/// `i` is where the first begins.
pub open spec fn phrase_at(text: Seq<char>, first: Seq<char>, second: Seq<char>, i: int) -> bool {
    let gap = i + first.len();
    let next = gap + leading_whitespace(text.skip(gap));
    &&& occurs_at(text, first, i)
    &&& word_begins(text, i)
    &&& gap < next
    &&& occurs_at(text, second, next)
    &&& word_ends(text, next + second.len())
}

/// The least index at or after `from` at which the phrase of `first` and
/// `second` begins in `text` in the sense of [`phrase_at`].
pub open spec fn first_phrase(text: Seq<char>, first: Seq<char>, second: Seq<char>, from: int) -> Option<
    int,
>
    decreases text.len() - from,
{
    if from < 0 || from >= text.len() {
        None
    } else if phrase_at(text, first, second, from) {
        Some(from)
    } else {
        first_phrase(text, first, second, from + 1)
    }
}

/// Whether the words `first` and `second` stand somewhere in `text` as
/// words of their own with white space, and nothing else, between them.
pub open spec fn has_phrase(text: Seq<char>, first: Seq<char>, second: Seq<char>) -> bool {
    first_phrase(text, first, second, 0) is Some
}

/// Whether an opening parenthesis stands at index `i` of `text` and, after
/// optional white space, `word` behind it.
pub open spec fn opened_at(text: Seq<char>, word: Seq<char>, i: int) -> bool {
    &&& 0 <= i < text.len()
    &&& text[i] == '('
    &&& occurs_at(text, word, i + 1 + leading_whitespace(text.skip(i + 1)))
}

/// The least index at or after `from` at which an opening parenthesis
/// stands in `text` with `word` behind it in the sense of [`opened_at`].
pub open spec fn first_opened(text: Seq<char>, word: Seq<char>, from: int) -> Option<int>
    decreases text.len() - from,
{
    if from < 0 || from >= text.len() {
        None
    } else if opened_at(text, word, from) {
        Some(from)
    } else {
        first_opened(text, word, from + 1)
    }
}

/// Whether somewhere in `text` an opening parenthesis stands and, after
/// optional white space, `word` behind it.
pub open spec fn has_opened(text: Seq<char>, word: Seq<char>) -> bool {
    first_opened(text, word, 0) is Some
}

/// `first_standing` returns the least place at or after `from`, and `None`
/// only where there is no such place.
pub proof fn lemma_first_standing(text: Seq<char>, word: Seq<char>, whole: bool, from: int)
    requires
        0 <= from,
    ensures
        match first_standing(text, word, whole, from) {
            Some(i) => {
                &&& from <= i
                &&& stands_at(text, word, whole, i)
                &&& forall|j: int| from <= j < i ==> !stands_at(text, word, whole, j)
            },
            None => forall|j: int| from <= j ==> !stands_at(text, word, whole, j),
        },
    decreases text.len() + 1 - from,
{
    if from + word.len() > text.len() {
    } else if stands_at(text, word, whole, from) {
    } else {
        lemma_first_standing(text, word, whole, from + 1);
    }
}

/// Decides [`stands_at`].
pub fn stands_in(text: &[char], word: &[char], whole: bool, i: usize) -> (b: bool)
    ensures
        b == stands_at(text@, word@, whole, i as int),
{
    if !matches_at(text, word, i) {
        return false;
    }
    if i > 0 && char_is_word(text[i - 1]) {
        return false;
    }
    let end: usize = i + word.len();
    !(whole && end < text.len() && char_is_word(text[end]))
}

/// Computes [`first_standing`] from the start of `text`.
pub fn find_standing(text: &[char], word: &[char], whole: bool) -> (r: Option<usize>)
    ensures
        match r {
            Some(i) => first_standing(text@, word@, whole, 0) == Some(i as int) && i + word.len()
                <= text.len(),
            None => first_standing(text@, word@, whole, 0) is None,
        },
{
    if word.len() > text.len() {
        return None;
    }
    let last: usize = text.len() - word.len();
    let mut i: usize = 0;
    loop
        invariant
            last == text.len() - word.len(),
            i <= last,
            first_standing(text@, word@, whole, 0) == first_standing(text@, word@, whole, i as int),
        decreases last - i,
    {
        if stands_in(text, word, whole, i) {
            return Some(i);
        }
        if i == last {
            assert(first_standing(text@, word@, whole, i + 1) is None);
            return None;
        }
        i += 1;
    }
}

/// Decides [`has_word`].
pub fn holds_word(text: &[char], word: &[char]) -> (b: bool)
    ensures
        b == has_word(text@, word@),
        b <==> exists|i: int| stands_at(text@, word@, true, i),
{
    proof {
        lemma_first_standing(text@, word@, true, 0);
    }
    let found = find_standing(text, word, true);
    proof {
        if found is Some {
            assert(stands_at(text@, word@, true, found.unwrap() as int));
        }
    }
    found.is_some()
}

/// Decides [`phrase_at`].
pub fn phrase_in(text: &[char], first: &[char], second: &[char], i: usize) -> (b: bool)
    ensures
        b == phrase_at(text@, first@, second@, i as int),
{
    if !stands_in(text, first, false, i) {
        return false;
    }
    let length: usize = text.len();
    let gap: usize = i + first.len();
    if gap == length {
        return false;
    }
    let next: usize = skip_whitespace(text, gap);
    gap < next && stands_in_end(text, second, next)
}

/// Whether `word` stands at index `i` of `text` and ends a word there.
pub fn stands_in_end(text: &[char], word: &[char], i: usize) -> (b: bool)
    ensures
        b == (occurs_at(text@, word@, i as int) && word_ends(text@, i + word.len())),
{
    if !matches_at(text, word, i) {
        return false;
    }
    let length: usize = text.len();
    let end: usize = i + word.len();
    !(end < length && char_is_word(text[end]))
}

/// Decides [`has_phrase`].
pub fn holds_phrase(text: &[char], first: &[char], second: &[char]) -> (b: bool)
    ensures
        b == has_phrase(text@, first@, second@),
{
    let mut i: usize = 0;
    while i < text.len()
        invariant
            i <= text.len(),
            first_phrase(text@, first@, second@, 0) == first_phrase(
                text@,
                first@,
                second@,
                i as int,
            ),
        decreases text.len() - i,
    {
        if phrase_in(text, first, second, i) {
            return true;
        }
        i += 1;
    }
    false
}

/// Decides [`opened_at`].
pub fn opened_in(text: &[char], word: &[char], i: usize) -> (b: bool)
    ensures
        b == opened_at(text@, word@, i as int),
{
    if i >= text.len() || text[i] != '(' {
        return false;
    }
    let next: usize = skip_whitespace(text, i + 1);
    matches_at(text, word, next)
}

/// Decides [`has_opened`].
pub fn holds_opened(text: &[char], word: &[char]) -> (b: bool)
    ensures
        b == has_opened(text@, word@),
{
    let mut i: usize = 0;
    while i < text.len()
        invariant
            i <= text.len(),
            first_opened(text@, word@, 0) == first_opened(text@, word@, i as int),
        decreases text.len() - i,
    {
        if opened_in(text, word, i) {
            return true;
        }
        i += 1;
    }
    false
}

/// The lower-case form of a text: what `to_lowercase` of the standard library
/// returns for a string of these characters.
pub uninterp spec fn lowercase_of(text: Seq<char>) -> Seq<char>;

/// The lower-case form of `text`, by `str::to_lowercase` of the standard
/// library. The contract claims only that the outcome is a function of the
/// characters handed in, and gives that function its name.
#[verifier::external_body]
pub(crate) fn to_lowercase(text: &str) -> (lower: String)
    ensures
        lower@ == lowercase_of(text@),
{
    text.to_lowercase()
}

/// The characters of `s` from index `from` up to, not including, index `to`.
pub fn substring(s: &str, from: usize, to: usize) -> (out: String)
    requires
        from <= to <= s@.len(),
    ensures
        out@ == s@.subrange(from as int, to as int),
{
    s.substring_char(from, to).to_owned()
}

} // verus!
