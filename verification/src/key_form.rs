//! The API key form of the sign-in flow: when a key has been entered, and what is sent.

use vstd::prelude::*;

verus! {

/// Whether the character is white space, as Unicode's White_Space property has it.
pub open spec fn is_white(c: char) -> bool {
    ||| ('\u{9}' <= c <= '\u{d}')
    ||| c == ' '
    ||| c == '\u{85}'
    ||| c == '\u{a0}'
    ||| c == '\u{1680}'
    ||| ('\u{2000}' <= c <= '\u{200a}')
    ||| c == '\u{2028}'
    ||| c == '\u{2029}'
    ||| c == '\u{202f}'
    ||| c == '\u{205f}'
    ||| c == '\u{3000}'
}

/// The first position from `i` on that holds a character other than white space, or the
/// length.
pub open spec fn first_solid(s: Seq<char>, i: int) -> int
    decreases s.len() - i,
{
    if i < 0 || i >= s.len() {
        s.len() as int
    } else if !is_white(s[i]) {
        i
    } else {
        first_solid(s, i + 1)
    }
}

/// The end of the part of the first `j` characters that ends with a character other than
/// white space, or 0.
pub open spec fn end_solid(s: Seq<char>, j: int) -> int
    decreases j,
{
    if j <= 0 || j > s.len() {
        0
    } else if !is_white(s[j - 1]) {
        j
    } else {
        end_solid(s, j - 1)
    }
}

/// The text without white space at either end.
pub open spec fn trimmed(s: Seq<char>) -> Seq<char> {
    let f = first_solid(s, 0);
    if f >= s.len() {
        Seq::empty()
    } else {
        s.subrange(f, end_solid(s, s.len() as int))
    }
}

proof fn lemma_first_solid(s: Seq<char>, i: int)
    requires
        0 <= i <= s.len(),
    ensures
        i <= first_solid(s, i) <= s.len(),
        first_solid(s, i) < s.len() ==> !is_white(s[first_solid(s, i)]),
        forall|k: int| i <= k < first_solid(s, i) ==> is_white(#[trigger] s[k]),
    decreases s.len() - i,
{
    if i < s.len() && is_white(s[i]) {
        lemma_first_solid(s, i + 1);
    }
}

proof fn lemma_end_solid(s: Seq<char>, j: int)
    requires
        0 <= j <= s.len(),
    ensures
        0 <= end_solid(s, j) <= j,
        end_solid(s, j) > 0 ==> !is_white(s[end_solid(s, j) - 1]),
        forall|k: int| end_solid(s, j) <= k < j ==> is_white(#[trigger] s[k]),
    decreases j,
{
    if j > 0 && is_white(s[j - 1]) {
        lemma_end_solid(s, j - 1);
    }
}

fn white(c: char) -> (r: bool)
    ensures
        r == is_white(c),
{
    ('\u{9}' <= c && c <= '\u{d}') || c == ' ' || c == '\u{85}' || c == '\u{a0}' || c
        == '\u{1680}' || ('\u{2000}' <= c && c <= '\u{200a}') || c == '\u{2028}' || c
        == '\u{2029}' || c == '\u{202f}' || c == '\u{205f}' || c == '\u{3000}'
}

/// The key without white space at either end.
pub fn trim_key(key: &str) -> (r: &str)
    ensures
        r@ == trimmed(key@),
{
    let len = key.unicode_len();
    let mut f: usize = 0;
    while f < len && white(key.get_char(f))
        invariant
            len == key@.len(),
            f <= len,
            first_solid(key@, 0) == first_solid(key@, f as int),
        decreases len - f,
    {
        f = f + 1;
    }
    proof {
        lemma_first_solid(key@, 0);
    }
    if f >= len {
        proof {
            reveal_strlit("");
        }
        return "";
    }
    let mut e: usize = len;
    while e > 0 && white(key.get_char(e - 1))
        invariant
            len == key@.len(),
            e <= len,
            end_solid(key@, len as int) == end_solid(key@, e as int),
        decreases e,
    {
        e = e - 1;
    }
    proof {
        lemma_end_solid(key@, len as int);
        lemma_first_solid(key@, 0);
        if e <= f {
            assert(!is_white(key@[f as int]));
            assert(f < e);
        }
    }
    key.substring_char(f, e)
}

/// Whether the form can add the key: something other than white space was entered.
pub fn key_ready(key: &str) -> (r: bool)
    ensures
        r == (trimmed(key@).len() > 0),
{
    let t = trim_key(key);
    t.unicode_len() > 0
}

/// The key to send when the user asks to add it: the trimmed key, unless it is empty or a
/// sign-in is already running.
pub fn key_to_send(key: &str, running: bool) -> (r: Option<String>)
    ensures
        r is None <==> (running || trimmed(key@).len() == 0),
        r matches Some(k) ==> k@ == trimmed(key@),
{
    let t = trim_key(key);
    if t.unicode_len() == 0 || running {
        None
    } else {
        Some(t.to_owned())
    }
}

} // verus!
