use vstd::prelude::*;
use crate::text::{is_space, is_space_char};

verus! {

/// A single comma with nothing but white space around it.
pub open spec fn is_lone_comma(s: Seq<char>) -> bool {
    exists|i: int|
        0 <= i < s.len() && s[i] == ',' && forall|j: int|
            0 <= j < s.len() && j != i ==> is_space(#[trigger] s[j])
}

/// The prompt made of the trailing command-line words: a first word that is
/// a lone comma is dropped, and the rest are joined by single spaces, with no
/// space before the first word that made it in.
pub open spec fn prompt_of(parts: Seq<Seq<char>>) -> Seq<char>
    decreases parts.len(),
{
    if parts.len() == 0 {
        Seq::empty()
    } else if parts.len() == 1 {
        if is_lone_comma(parts[0]) {
            Seq::empty()
        } else {
            parts[0]
        }
    } else {
        let head = prompt_of(parts.drop_last());
        if head.len() == 0 {
            parts.last()
        } else {
            head + " "@ + parts.last()
        }
    }
}

fn lone_comma(s: &str) -> (r: bool)
    ensures
        r == is_lone_comma(s@),
{
    let n = s.unicode_len();
    let mut seen = false;
    let mut at: usize = 0;
    let mut i: usize = 0;
    while i < n
        invariant
            n == s@.len(),
            i <= n,
            seen ==> at < i && s@[at as int] == ',',
            forall|j: int| 0 <= j < i && !(seen && j == at) ==> is_space(#[trigger] s@[j]),
        decreases n - i,
    {
        let c = s.get_char(i);
        if c == ',' && !seen {
            seen = true;
            at = i;
        } else if !is_space_char(c) {
            assert(!is_space(s@[i as int]));
            if c == ',' {
                assert(s@[at as int] == ',' && s@[i as int] == ',');
            }
            assert(!is_lone_comma(s@)) by {
                if is_lone_comma(s@) {
                    let k = choose|k: int|
                        0 <= k < s@.len() && s@[k] == ',' && forall|j: int|
                            0 <= j < s@.len() && j != k ==> is_space(#[trigger] s@[j]);
                    if k != i {
                        assert(is_space(s@[i as int]));
                    } else {
                        assert(is_space(s@[at as int]));
                    }
                }
            }
            return false;
        }
        i = i + 1;
    }
    if !seen {
        assert(!is_lone_comma(s@)) by {
            if is_lone_comma(s@) {
                let k = choose|k: int|
                    0 <= k < s@.len() && s@[k] == ',' && forall|j: int|
                        0 <= j < s@.len() && j != k ==> is_space(#[trigger] s@[j]);
                assert(is_space(s@[k]));
            }
        }
    }
    seen
}

/// The text of a list of strings.
pub open spec fn texts(parts: Seq<String>) -> Seq<Seq<char>> {
    parts.map_values(|p: String| p@)
}

/// Joins the trailing command-line words into the prompt.
pub fn prompt(parts: &Vec<String>) -> (r: String)
    ensures
        r@ == prompt_of(texts(parts@)),
{
    let mut out = String::new();
    if parts.len() == 0 {
        return out;
    }
    if !lone_comma(parts[0].as_str()) {
        out.append(parts[0].as_str());
    }
    assert(texts(parts@.subrange(0, 1)) =~= seq![parts@[0]@]);
    let mut k: usize = 1;
    while k < parts.len()
        invariant
            1 <= k <= parts@.len(),
            out@ == prompt_of(texts(parts@.subrange(0, k as int))),
        decreases parts@.len() - k,
    {
        assert(texts(parts@.subrange(0, k + 1)).drop_last() =~= texts(parts@.subrange(0, k as int)));
        assert(texts(parts@.subrange(0, k + 1)).last() == parts@[k as int]@);
        if out.unicode_len() > 0 {
            out.append(" ");
        }
        out.append(parts[k].as_str());
        k = k + 1;
    }
    assert(parts@.subrange(0, k as int) =~= parts@);
    out
}

} // verus!
