use vstd::prelude::*;

verus! {

/// The characters that `\s` and `str::trim` treat as white space.
pub open spec fn is_space(c: char) -> bool {
    c == ' ' || ('\t' <= c && c <= '\r') || c == '\u{85}' || c == '\u{a0}' || c == '\u{1680}'
        || ('\u{2000}' <= c && c <= '\u{200a}') || c == '\u{2028}' || c == '\u{2029}'
        || c == '\u{202f}' || c == '\u{205f}' || c == '\u{3000}'
}

/// `c` equals the lower-case keyword character `k`, ignoring ASCII case.
pub open spec fn char_eq_ci(c: char, k: char) -> bool {
    c == k || ('a' <= k && k <= 'z' && c as u32 + 32 == k as u32)
}

/// `kw` occurs in `s` at position `i`, ignoring ASCII case.
pub open spec fn occurs_ci(s: Seq<char>, i: int, kw: Seq<char>) -> bool {
    0 <= i && i + kw.len() <= s.len() && forall|j: int|
        0 <= j < kw.len() ==> #[trigger] char_eq_ci(s[i + j], kw[j])
}

/// `s` is the keyword `kw`, ignoring ASCII case.
pub open spec fn equals_ci(s: Seq<char>, kw: Seq<char>) -> bool {
    s.len() == kw.len() && occurs_ci(s, 0, kw)
}

/// The first position at or after `i` that does not hold white space.
pub open spec fn skip_space(s: Seq<char>, i: int) -> int
    decreases s.len() - i,
{
    if 0 <= i < s.len() && is_space(s[i]) {
        skip_space(s, i + 1)
    } else {
        i
    }
}

/// The first position at or after `i` that holds white space, or the end.
pub open spec fn word_end(s: Seq<char>, i: int) -> int
    decreases s.len() - i,
{
    if 0 <= i < s.len() && !is_space(s[i]) {
        word_end(s, i + 1)
    } else {
        i
    }
}

pub proof fn lemma_skip_space(s: Seq<char>, i: int)
    requires
        0 <= i <= s.len(),
    ensures
        i <= skip_space(s, i) <= s.len(),
        forall|j: int| i <= j < skip_space(s, i) ==> is_space(#[trigger] s[j]),
        skip_space(s, i) < s.len() ==> !is_space(s[skip_space(s, i)]),
    decreases s.len() - i,
{
    if i < s.len() && is_space(s[i]) {
        lemma_skip_space(s, i + 1);
    }
}

pub proof fn lemma_word_end(s: Seq<char>, i: int)
    requires
        0 <= i <= s.len(),
    ensures
        i <= word_end(s, i) <= s.len(),
        forall|j: int| i <= j < word_end(s, i) ==> !is_space(#[trigger] s[j]),
        word_end(s, i) < s.len() ==> is_space(s[word_end(s, i)]),
    decreases s.len() - i,
{
    if i < s.len() && !is_space(s[i]) {
        lemma_word_end(s, i + 1);
    }
}

pub fn is_space_char(c: char) -> (r: bool)
    ensures
        r == is_space(c),
{
    c == ' ' || ('\t' <= c && c <= '\r') || c == '\u{85}' || c == '\u{a0}' || c == '\u{1680}'
        || ('\u{2000}' <= c && c <= '\u{200a}') || c == '\u{2028}' || c == '\u{2029}'
        || c == '\u{202f}' || c == '\u{205f}' || c == '\u{3000}'
}

/// Whether `kw` occurs in `s` at `i`, ignoring ASCII case; `kw` is written in
/// lower case.
pub fn occurs_at_ci(s: &str, i: usize, kw: &str) -> (r: bool)
    requires
        i <= s@.len(),
    ensures
        r == occurs_ci(s@, i as int, kw@),
{
    let n = s.unicode_len();
    let m = kw.unicode_len();
    if m > n - i {
        return false;
    }
    let mut j: usize = 0;
    while j < m
        invariant
            n == s@.len(),
            m == kw@.len(),
            i + m <= n,
            j <= m,
            forall|k: int| 0 <= k < j ==> #[trigger] char_eq_ci(s@[i + k], kw@[k]),
        decreases m - j,
    {
        let c = s.get_char(i + j);
        let k = kw.get_char(j);
        if !(c == k || ('a' <= k && k <= 'z' && c as u32 + 32 == k as u32)) {
            assert(!char_eq_ci(s@[i + j], kw@[j as int]));
            return false;
        }
        j = j + 1;
    }
    true
}

/// Whether `s` is `kw`, ignoring ASCII case; `kw` is written in lower case.
pub fn equals_ignore_case(s: &str, kw: &str) -> (r: bool)
    ensures
        r == equals_ci(s@, kw@),
{
    s.unicode_len() == kw.unicode_len() && occurs_at_ci(s, 0, kw)
}

/// Whether two strings hold the same characters.
pub fn same_text(a: &str, b: &str) -> (r: bool)
    ensures
        r == (a@ == b@),
{
    let n = a.unicode_len();
    if n != b.unicode_len() {
        return false;
    }
    let mut i: usize = 0;
    while i < n
        invariant
            n == a@.len(),
            n == b@.len(),
            i <= n,
            forall|k: int| 0 <= k < i ==> a@[k] == b@[k],
        decreases n - i,
    {
        if a.get_char(i) != b.get_char(i) {
            return false;
        }
        i = i + 1;
    }
    assert(a@ =~= b@);
    true
}

/// The first position at or after `i` that does not hold white space.
pub fn skip_spaces(s: &str, i: usize) -> (r: usize)
    requires
        i <= s@.len(),
    ensures
        r == skip_space(s@, i as int),
{
    let n = s.unicode_len();
    let mut k: usize = i;
    while k < n && is_space_char(s.get_char(k))
        invariant
            n == s@.len(),
            i <= k <= n,
            skip_space(s@, k as int) == skip_space(s@, i as int),
        decreases n - k,
    {
        k = k + 1;
    }
    k
}

/// The first position at or after `i` that holds white space, or the end.
pub fn find_word_end(s: &str, i: usize) -> (r: usize)
    requires
        i <= s@.len(),
    ensures
        r == word_end(s@, i as int),
{
    let n = s.unicode_len();
    let mut k: usize = i;
    while k < n && !is_space_char(s.get_char(k))
        invariant
            n == s@.len(),
            i <= k <= n,
            word_end(s@, k as int) == word_end(s@, i as int),
        decreases n - k,
    {
        k = k + 1;
    }
    k
}

} // verus!
