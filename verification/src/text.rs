//! Text primitives over sequences of characters.

use vstd::prelude::*;

verus! {

/// Whether `c` carries the Unicode `White_Space` property.
pub open spec fn is_space(c: char) -> bool {
    let n = c as u32;
    ||| 0x09 <= n <= 0x0D
    ||| n == 0x20
    ||| n == 0x85
    ||| n == 0xA0
    ||| n == 0x1680
    ||| 0x2000 <= n <= 0x200A
    ||| n == 0x2028
    ||| n == 0x2029
    ||| n == 0x202F
    ||| n == 0x205F
    ||| n == 0x3000
}

/// Decides the `White_Space` property of one character.
pub fn char_is_space(c: char) -> (b: bool)
    ensures
        b == is_space(c),
{
    let n: u32 = c as u32;
    (0x09 <= n && n <= 0x0D) || n == 0x20 || n == 0x85 || n == 0xA0 || n == 0x1680 || (0x2000 <= n
        && n <= 0x200A) || n == 0x2028 || n == 0x2029 || n == 0x202F || n == 0x205F || n == 0x3000
}

/// The characters of `s`, in order.
pub fn chars_of(s: &str) -> (v: Vec<char>)
    ensures
        v@ == s@,
{
    let mut v: Vec<char> = Vec::new();
    for c in it: s.chars()
        invariant
            v@ == it.seq().take(it.index() as int),
            it.seq() == s@,
    {
        v.push(c);
    }
    v
}

/// The word that ends just before `end`, if one is under way since `start`.
pub open spec fn pending_word(s: Seq<char>, start: int, end: int) -> Seq<Seq<char>> {
    if start < end {
        seq![s.subrange(start, end)]
    } else {
        Seq::empty()
    }
}

/// The words of `s` that end at or after position `i`, where the word under
/// way, if any, began at `start`.
pub open spec fn words_from(s: Seq<char>, i: int, start: int) -> Seq<Seq<char>>
    decreases s.len() - i,
{
    if i >= s.len() {
        pending_word(s, start, s.len() as int)
    } else if is_space(s[i]) {
        pending_word(s, start, i) + words_from(s, i + 1, i + 1)
    } else {
        words_from(s, i + 1, start)
    }
}

/// The maximal runs of characters of `s` that hold no white space, in order.
pub open spec fn words(s: Seq<char>) -> Seq<Seq<char>> {
    words_from(s, 0, 0)
}

/// No word is empty, and no word holds white space.
pub proof fn words_are_free_of_space(s: Seq<char>, k: int)
    requires
        0 <= k < words(s).len(),
    ensures
        words(s)[k].len() > 0,
        forall|j: int| 0 <= j < words(s)[k].len() ==> !is_space(#[trigger] words(s)[k][j]),
{
    lemma_words_from(s, 0, 0, k);
}

proof fn lemma_words_from(s: Seq<char>, i: int, start: int, k: int)
    requires
        0 <= start <= i <= s.len(),
        forall|j: int| start <= j < i ==> !is_space(#[trigger] s[j]),
        0 <= k < words_from(s, i, start).len(),
    ensures
        words_from(s, i, start)[k].len() > 0,
        forall|j: int|
            0 <= j < words_from(s, i, start)[k].len() ==> !is_space(
                #[trigger] words_from(s, i, start)[k][j],
            ),
    decreases s.len() - i,
{
    if i >= s.len() {
        assert(words_from(s, i, start)[k] == s.subrange(start, s.len() as int));
    } else if is_space(s[i]) {
        let head = pending_word(s, start, i);
        if k < head.len() {
            assert(words_from(s, i, start)[k] == s.subrange(start, i));
        } else {
            assert(words_from(s, i, start)[k] == words_from(s, i + 1, i + 1)[k - head.len()]);
            lemma_words_from(s, i + 1, i + 1, k - head.len());
        }
    } else {
        lemma_words_from(s, i + 1, start, k);
    }
}

/// Splits `s` at white space, as `str::split_whitespace` does.
pub fn split_words(s: &str) -> (out: Vec<String>)
    ensures
        out.deep_view() == words(s@),
{
    let chars = chars_of(s);
    let n = chars.len();
    let mut out: Vec<String> = Vec::new();
    let mut i: usize = 0;
    let mut start: usize = 0;
    assert(out.deep_view() =~= Seq::<Seq<char>>::empty());
    while i < n
        invariant
            start <= i <= n,
            n == s@.len(),
            chars@ == s@,
            out.deep_view() + words_from(s@, i as int, start as int) == words(s@),
        decreases n - i,
    {
        if char_is_space(chars[i]) {
            if start < i {
                let ghost before = out.deep_view();
                let word = s.substring_char(start, i).to_owned();
                out.push(word);
                assert(out.deep_view() =~= before + pending_word(s@, start as int, i as int));
            }
            start = i + 1;
        }
        i += 1;
    }
    if start < n {
        let ghost before = out.deep_view();
        let word = s.substring_char(start, n).to_owned();
        out.push(word);
        assert(out.deep_view() =~= before + pending_word(s@, start as int, n as int));
    }
    out
}

/// `needle` stands in `hay` at position `i`.
pub open spec fn occurs_at(hay: Seq<char>, needle: Seq<char>, i: int) -> bool {
    0 <= i && i + needle.len() <= hay.len() && hay.subrange(i, i + needle.len()) == needle
}

/// `needle` is a contiguous part of `hay`.
pub open spec fn contains(hay: Seq<char>, needle: Seq<char>) -> bool {
    exists|i: int| occurs_at(hay, needle, i)
}

/// Decides whether `needle` stands in `hay` at position `i`.
fn matches_at(hay: &Vec<char>, needle: &Vec<char>, i: usize) -> (b: bool)
    requires
        i + needle.len() <= hay.len(),
    ensures
        b == occurs_at(hay@, needle@, i as int),
{
    let m = needle.len();
    let mut j: usize = 0;
    while j < m
        invariant
            j <= m,
            m == needle.len(),
            i + m <= hay.len(),
            forall|k: int| 0 <= k < j ==> hay[i + k] == needle[k],
        decreases m - j,
    {
        if hay[i + j] != needle[j] {
            assert(hay@.subrange(i as int, i + m)[j as int] != needle@[j as int]);
            return false;
        }
        j += 1;
    }
    assert(hay@.subrange(i as int, i + m) =~= needle@);
    true
}

/// Decides whether `needle` is a contiguous part of `hay`, as `str::contains`
/// does for a string pattern.
pub fn has_substring(hay: &str, needle: &str) -> (b: bool)
    ensures
        b == contains(hay@, needle@),
{
    let h = chars_of(hay);
    let p = chars_of(needle);
    if p.len() > h.len() {
        return false;
    }
    if p.len() == 0 {
        assert(hay@.subrange(0, 0) =~= needle@);
        assert(occurs_at(hay@, needle@, 0));
        return true;
    }
    let last = h.len() - p.len();
    let mut i: usize = 0;
    while i <= last
        invariant
            i <= last + 1,
            last == h.len() - p.len(),
            p.len() > 0,
            h@ == hay@,
            p@ == needle@,
            forall|k: int| 0 <= k < i ==> !occurs_at(hay@, needle@, k),
        decreases last + 1 - i,
    {
        if matches_at(&h, &p, i) {
            return true;
        }
        i += 1;
    }
    false
}

/// The position of the first `c` in `s` at or after `i`, or the length of `s`
/// if there is none.
pub open spec fn find_from(s: Seq<char>, c: char, i: int) -> int
    decreases s.len() - i,
{
    if i >= s.len() {
        s.len() as int
    } else if s[i] == c {
        i
    } else {
        find_from(s, c, i + 1)
    }
}

/// The part of `s` before its first `c`; all of `s` if it holds none.
pub open spec fn before_first(s: Seq<char>, c: char) -> Seq<char> {
    s.take(find_from(s, c, 0))
}

/// The part of `s` after its first `c`; empty if it holds none.
pub open spec fn after_first(s: Seq<char>, c: char) -> Seq<char> {
    let k = find_from(s, c, 0);
    if k < s.len() {
        s.skip(k + 1)
    } else {
        Seq::empty()
    }
}

/// Splits `s` at its first `c`.
pub fn split_at_first(s: &str, c: char) -> (parts: (String, String))
    ensures
        parts.0@ == before_first(s@, c),
        parts.1@ == after_first(s@, c),
{
    let chars = chars_of(s);
    let n = chars.len();
    let mut i: usize = 0;
    while i < n && chars[i] != c
        invariant
            i <= n,
            n == s@.len(),
            chars@ == s@,
            find_from(s@, c, i as int) == find_from(s@, c, 0),
        decreases n - i,
    {
        i += 1;
    }
    let head = s.substring_char(0, i).to_owned();
    if i < n {
        let tail = s.substring_char(i + 1, n).to_owned();
        (head, tail)
    } else {
        (head, String::new())
    }
}

/// The number of places among the first `end` of `s` that hold `c`.
pub open spec fn occurrences(s: Seq<char>, c: char, end: int) -> nat
    decreases end,
{
    if end <= 0 {
        0
    } else if s[end - 1] == c {
        occurrences(s, c, end - 1) + 1
    } else {
        occurrences(s, c, end - 1)
    }
}

/// Counts how often `c` stands in `s`.
pub fn count_char(s: &str, c: char) -> (n: usize)
    ensures
        n == occurrences(s@, c, s@.len() as int),
{
    let chars = chars_of(s);
    let mut n: usize = 0;
    let mut i: usize = 0;
    while i < chars.len()
        invariant
            i <= chars.len(),
            chars@ == s@,
            n <= i,
            n == occurrences(s@, c, i as int),
        decreases chars.len() - i,
    {
        if chars[i] == c {
            n += 1;
        }
        i += 1;
    }
    n
}

/// The parts in order, with `sep` between each two neighbours.
pub open spec fn join(parts: Seq<Seq<char>>, sep: Seq<char>) -> Seq<char>
    decreases parts.len(),
{
    if parts.len() == 0 {
        Seq::empty()
    } else if parts.len() == 1 {
        parts[0]
    } else {
        join(parts.drop_last(), sep) + sep + parts.last()
    }
}

/// Joins `parts` with `sep`, as `[String]::join` does.
pub fn join_strings(parts: &Vec<String>, sep: &str) -> (out: String)
    ensures
        out@ == join(parts.deep_view(), sep@),
{
    let mut out = String::new();
    let mut i: usize = 0;
    while i < parts.len()
        invariant
            i <= parts.len(),
            out@ == join(parts.deep_view().take(i as int), sep@),
        decreases parts.len() - i,
    {
        let ghost prefix = parts.deep_view().take(i as int);
        let ghost next = parts.deep_view().take(i + 1);
        assert(next.drop_last() =~= prefix);
        assert(next.last() == parts[i as int]@);
        if i > 0 {
            out.append(sep);
        }
        out.append(parts[i].as_str());
        assert(out@ =~= join(next, sep@));
        i += 1;
    }
    assert(parts.deep_view().take(parts.len() as int) =~= parts.deep_view());
    out
}

} // verus!
