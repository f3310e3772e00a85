//! Small string tools the rest of the library builds its labels with:
//! decimal numbers, joining parts with a separator, and `{name}` templates.

use vstd::prelude::*;

verus! {

/// The separator between the parts of a subtitle.
pub open spec fn dot_sep() -> Seq<char> {
    " · "@
}

/// The character of one decimal digit.
pub open spec fn digit_char(d: nat) -> char {
    if d == 0 { '0' }
    else if d == 1 { '1' }
    else if d == 2 { '2' }
    else if d == 3 { '3' }
    else if d == 4 { '4' }
    else if d == 5 { '5' }
    else if d == 6 { '6' }
    else if d == 7 { '7' }
    else if d == 8 { '8' }
    else { '9' }
}

/// The decimal writing of a number, most significant digit first, no leading zeros.
pub open spec fn decimal(n: nat) -> Seq<char>
    decreases n,
{
    if n < 10 {
        seq![digit_char(n)]
    } else {
        decimal(n / 10).push(digit_char(n % 10))
    }
}

/// The parts joined with `sep` between neighbours.
pub open spec fn join(parts: Seq<Seq<char>>, sep: Seq<char>) -> Seq<char>
    decreases parts.len(),
{
    if parts.len() == 0 {
        seq![]
    } else if parts.len() == 1 {
        parts[0]
    } else {
        join(parts.drop_last(), sep) + sep + parts.last()
    }
}

/// The value of the first pair whose key is `key`.
pub open spec fn lookup(pairs: Seq<(Seq<char>, Seq<char>)>, key: Seq<char>) -> Option<Seq<char>>
    decreases pairs.len(),
{
    if pairs.len() == 0 {
        None
    } else if pairs[0].0 == key {
        Some(pairs[0].1)
    } else {
        lookup(pairs.drop_first(), key)
    }
}

/// The first position at or after `i` that holds `c`, or the length when there is none.
pub open spec fn find_char(t: Seq<char>, c: char, i: int) -> int
    decreases t.len() - i,
{
    if i >= t.len() {
        t.len() as int
    } else if t[i] == c {
        i
    } else {
        find_char(t, c, i + 1)
    }
}

/// The template from position `i` on, with each `{key}` whose key has a value replaced by
/// that value; every other character, a `{` without a known key included, stays as it is.
pub open spec fn fill_from(t: Seq<char>, pairs: Seq<(Seq<char>, Seq<char>)>, i: int) -> Seq<char>
    decreases t.len() - i,
{
    if i < 0 || i >= t.len() {
        seq![]
    } else if t[i] == '{' && find_char(t, '}', i + 1) < t.len() && lookup(
        pairs,
        t.subrange(i + 1, find_char(t, '}', i + 1)),
    ) is Some {
        proof {
            lemma_find_char_bounds(t, '}', i + 1);
        }
        lookup(pairs, t.subrange(i + 1, find_char(t, '}', i + 1)))->0 + fill_from(
            t,
            pairs,
            find_char(t, '}', i + 1) + 1,
        )
    } else {
        seq![t[i]] + fill_from(t, pairs, i + 1)
    }
}

/// The whole template filled.
pub open spec fn fill_spec(t: Seq<char>, pairs: Seq<(Seq<char>, Seq<char>)>) -> Seq<char> {
    fill_from(t, pairs, 0)
}

/// The pairs of a `fill` call as plain sequences.
pub open spec fn pairs_view(pairs: Seq<(&str, &str)>) -> Seq<(Seq<char>, Seq<char>)> {
    pairs.map_values(|p: (&str, &str)| (p.0@, p.1@))
}

/// Where the first occurrence lies.
pub proof fn lemma_find_char_bounds(t: Seq<char>, c: char, i: int)
    requires
        0 <= i,
    ensures
        i <= find_char(t, c, i) <= t.len() || (i > t.len() && find_char(t, c, i) == t.len()),
        find_char(t, c, i) < t.len() ==> t[find_char(t, c, i)] == c,
        forall|k: int| i <= k < find_char(t, c, i) ==> t[k] != c,
    decreases t.len() - i,
{
    if i < t.len() && t[i] != c {
        lemma_find_char_bounds(t, c, i + 1);
    }
}

/// A template without `{` is left unchanged by filling, whatever the pairs.
pub proof fn lemma_fill_without_placeholders(t: Seq<char>, pairs: Seq<(Seq<char>, Seq<char>)>, i: int)
    requires
        0 <= i <= t.len(),
        forall|k: int| 0 <= k < t.len() ==> t[k] != '{',
    ensures
        fill_from(t, pairs, i) == t.skip(i),
    decreases t.len() - i,
{
    if i < t.len() {
        lemma_fill_without_placeholders(t, pairs, i + 1);
        assert(t.skip(i) =~= seq![t[i]] + t.skip(i + 1));
    } else {
        assert(t.skip(i) =~= Seq::<char>::empty());
    }
}

/// With no pairs, filling changes nothing.
pub proof fn lemma_fill_without_pairs(t: Seq<char>, i: int)
    requires
        0 <= i <= t.len(),
    ensures
        fill_from(t, Seq::empty(), i) == t.skip(i),
    decreases t.len() - i,
{
    if i < t.len() {
        lemma_fill_without_pairs(t, i + 1);
        assert(t.skip(i) =~= seq![t[i]] + t.skip(i + 1));
    } else {
        assert(t.skip(i) =~= Seq::<char>::empty());
    }
}

fn digit(d: usize) -> (s: &'static str)
    requires
        d < 10,
    ensures
        s@ == seq![digit_char(d as nat)],
{
    if d == 0 {
        proof {
            reveal_strlit("0");
        }
        "0"
    } else if d == 1 {
        proof {
            reveal_strlit("1");
        }
        "1"
    } else if d == 2 {
        proof {
            reveal_strlit("2");
        }
        "2"
    } else if d == 3 {
        proof {
            reveal_strlit("3");
        }
        "3"
    } else if d == 4 {
        proof {
            reveal_strlit("4");
        }
        "4"
    } else if d == 5 {
        proof {
            reveal_strlit("5");
        }
        "5"
    } else if d == 6 {
        proof {
            reveal_strlit("6");
        }
        "6"
    } else if d == 7 {
        proof {
            reveal_strlit("7");
        }
        "7"
    } else if d == 8 {
        proof {
            reveal_strlit("8");
        }
        "8"
    } else {
        proof {
            reveal_strlit("9");
        }
        "9"
    }
}

/// The decimal writing of `n`.
pub fn decimal_string(n: usize) -> (s: String)
    ensures
        s@ == decimal(n as nat),
    decreases n,
{
    if n < 10 {
        digit(n).to_owned()
    } else {
        let head = decimal_string(n / 10);
        let s = head.concat(digit(n % 10));
        assert(s@ =~= decimal((n / 10) as nat).push(digit_char((n % 10) as nat)));
        s
    }
}

/// Whether two strings hold the same characters.
pub fn same_text(a: &str, b: &str) -> (r: bool)
    ensures
        r == (a@ == b@),
{
    a.to_owned() == b.to_owned()
}

/// Joins the parts with `sep` between neighbours.
pub fn join_strs(parts: &Vec<&str>, sep: &str) -> (s: String)
    ensures
        s@ == join(parts@.map_values(|p: &str| p@), sep@),
{
    let ghost views = parts@.map_values(|p: &str| p@);
    let mut s = String::new();
    let mut i: usize = 0;
    while i < parts.len()
        invariant
            i <= parts.len(),
            views == parts@.map_values(|p: &str| p@),
            s@ == join(views.take(i as int), sep@),
        decreases parts.len() - i,
    {
        assert(views.take(i + 1).drop_last() =~= views.take(i as int));
        if i > 0 {
            s.append(sep);
        }
        s.append(parts[i]);
        i = i + 1;
    }
    assert(views.take(parts.len() as int) =~= views);
    s
}

/// The position of the first `}` at or after `from`, or the length when there is none.
fn find_close(t: &str, len: usize, from: usize) -> (j: usize)
    requires
        len == t@.len(),
        from <= len,
    ensures
        j as int == find_char(t@, '}', from as int),
    decreases len - from,
{
    if from >= len {
        len
    } else if t.get_char(from) == '}' {
        from
    } else {
        find_close(t, len, from + 1)
    }
}

fn lookup_value<'a>(pairs: &[(&str, &'a str)], key: &str) -> (r: Option<&'a str>)
    ensures
        match r {
            Some(v) => lookup(pairs_view(pairs@), key@) == Some(v@),
            None => lookup(pairs_view(pairs@), key@) is None,
        },
{
    let ghost all = pairs_view(pairs@);
    let mut k: usize = 0;
    assert(all.skip(0) =~= all);
    while k < pairs.len()
        invariant
            k <= pairs.len(),
            all == pairs_view(pairs@),
            lookup(all, key@) == lookup(all.skip(k as int), key@),
        decreases pairs.len() - k,
    {
        let (name, value) = pairs[k];
        assert(all.skip(k as int).drop_first() =~= all.skip(k + 1));
        assert(all.skip(k as int)[0] == (name@, value@));
        if same_text(name, key) {
            return Some(value);
        }
        k = k + 1;
    }
    assert(all.skip(k as int) =~= Seq::<(Seq<char>, Seq<char>)>::empty());
    None
}

/// Replaces each `{key}` of the template whose key has a value in `pairs` by that value.
pub fn fill(template: &str, pairs: &[(&str, &str)]) -> (s: String)
    ensures
        s@ == fill_spec(template@, pairs_view(pairs@)),
{
    let ghost t = template@;
    let ghost pv = pairs_view(pairs@);
    let len = template.unicode_len();
    let mut s = String::new();
    let mut i: usize = 0;
    while i < len
        invariant
            len == t.len(),
            t == template@,
            pv == pairs_view(pairs@),
            i <= len,
            s@ + fill_from(t, pv, i as int) == fill_from(t, pv, 0),
        decreases len - i,
    {
        let c = template.get_char(i);
        let mut replaced = false;
        if c == '{' {
            let j = find_close(template, len, i + 1);
            proof {
                lemma_find_char_bounds(t, '}', i + 1);
            }
            if j < len {
                let key = template.substring_char(i + 1, j);
                match lookup_value(pairs, key) {
                    Some(value) => {
                        assert(s@ + fill_from(t, pv, i as int) == s@ + value@ + fill_from(
                            t,
                            pv,
                            j + 1,
                        ));
                        s.append(value);
                        i = j + 1;
                        replaced = true;
                    },
                    None => {},
                }
            }
        }
        if !replaced {
            let one = template.substring_char(i, i + 1);
            assert(one@ =~= seq![t[i as int]]);
            assert(s@ + fill_from(t, pv, i as int) == s@ + one@ + fill_from(t, pv, i + 1));
            s.append(one);
            i = i + 1;
        }
    }
    assert(fill_from(t, pv, i as int) =~= Seq::<char>::empty());
    assert(s@ =~= s@ + Seq::<char>::empty());
    s
}

} // verus!
