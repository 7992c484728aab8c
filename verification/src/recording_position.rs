//! Stage times typed by the user: the fields of `M:SS.mmm`, `H:MM:SS.mmm` or
//! `M.SS.mmm`.

use vstd::prelude::*;
use crate::text::{chars_of, push_char, string_from_chars, trim, trimmed};

verus! {

/// How many times `c` occurs in `t`.
pub open spec fn count_char(t: Seq<char>, c: char) -> int
    decreases t.len(),
{
    if t.len() == 0 {
        0
    } else {
        count_char(t.drop_last(), c) + if t.last() == c {
            1int
        } else {
            0int
        }
    }
}

/// The pieces of `t` between occurrences of `sep` (`str::split`).
pub open spec fn split_text(t: Seq<char>, sep: char) -> Seq<Seq<char>>
    decreases t.len(),
{
    if t.len() == 0 {
        seq![Seq::empty()]
    } else {
        let p = split_text(t.drop_last(), sep);
        if t.last() == sep {
            p.push(Seq::empty())
        } else {
            p.update(p.len() - 1, p.last().push(t.last()))
        }
    }
}

proof fn lemma_split_text_len(t: Seq<char>, sep: char)
    ensures
        count_char(t, sep) >= 0,
        split_text(t, sep).len() == count_char(t, sep) + 1,
    decreases t.len(),
{
    if t.len() > 0 {
        lemma_split_text_len(t.drop_last(), sep);
    }
}

/// The duration text with `M.SS.mmm` rewritten as `M:SS.mmm`.
pub open spec fn duration_text(s: Seq<char>) -> Seq<char> {
    let t = trimmed(s);
    if count_char(t, ':') == 0 && count_char(t, '.') == 2 {
        let p = split_text(t, '.');
        p[0] + ":"@ + p[1] + "."@ + p[2]
    } else {
        t
    }
}

/// The fields of a typed duration: two (`minutes`, `seconds`) or three (`hours`,
/// `minutes`, `seconds`), still to be read as numbers.
pub open spec fn duration_parts(s: Seq<char>) -> Option<Seq<Seq<char>>> {
    let p = split_text(duration_text(s), ':');
    if p.len() == 2 || p.len() == 3 {
        Some(p)
    } else {
        None
    }
}

/// The message for a duration with the wrong number of fields.
pub open spec fn duration_error_text(s: Seq<char>) -> Seq<char> {
    "expected M:SS.mmm, got "@ + duration_text(s)
}

pub(crate) fn split_chars(t: &Vec<char>, sep: char) -> (r: Vec<String>)
    ensures
        r@.map_values(|x: String| x@) == split_text(t@, sep),
{
    let mut parts: Vec<String> = Vec::new();
    parts.push(String::new());
    let mut i: usize = 0;
    while i < t.len()
        invariant
            i <= t@.len(),
            parts@.len() >= 1,
            parts@.map_values(|x: String| x@) == split_text(t@.take(i as int), sep),
        decreases t@.len() - i,
    {
        assert(t@.take(i + 1).drop_last() =~= t@.take(i as int));
        let ghost before = parts@;
        if t[i] == sep {
            parts.push(String::new());
            assert(parts@.map_values(|x: String| x@) =~= before.map_values(|x: String| x@).push(
                Seq::empty(),
            ));
        } else {
            let last = parts.len() - 1;
            let mut cur = parts.pop().unwrap();
            push_char(&mut cur, t[i]);
            parts.push(cur);
            assert(parts@.map_values(|x: String| x@) =~= before.map_values(|x: String| x@).update(
                last as int,
                before[last as int]@.push(t@[i as int]),
            ));
        }
        i = i + 1;
    }
    assert(t@.take(t@.len() as int) =~= t@);
    parts
}

fn count_chars(t: &Vec<char>, c: char) -> (r: usize)
    ensures
        r == count_char(t@, c),
{
    let mut n: usize = 0;
    let mut i: usize = 0;
    while i < t.len()
        invariant
            i <= t@.len(),
            n <= i,
            n == count_char(t@.take(i as int), c),
        decreases t@.len() - i,
    {
        assert(t@.take(i + 1).drop_last() =~= t@.take(i as int));
        if t[i] == c {
            n = n + 1;
        }
        i = i + 1;
    }
    assert(t@.take(t@.len() as int) =~= t@);
    n
}

/// The fields of a typed duration (see [`duration_parts`]); refused unless there are two
/// or three.
pub fn duration_fields(s: &str) -> (r: Result<Vec<String>, String>)
    ensures
        match duration_parts(s@) {
            Some(p) => r matches Ok(v) && v@.map_values(|x: String| x@) == p,
            None => r matches Err(m) && m@ == duration_error_text(s@),
        },
{
    let t = trim(s);
    let tc = chars_of(t.as_str());
    let text: Vec<char> = if count_chars(&tc, ':') == 0 && count_chars(&tc, '.') == 2 {
        let p = split_chars(&tc, '.');
        proof {
            lemma_split_text_len(tc@, '.');
        }
        assert(p@[0]@ == split_text(tc@, '.')[0]);
        assert(p@[1]@ == split_text(tc@, '.')[1]);
        assert(p@[2]@ == split_text(tc@, '.')[2]);
        let mut joined = p[0].clone();
        joined.append(":");
        joined.append(p[1].as_str());
        joined.append(".");
        joined.append(p[2].as_str());
        chars_of(joined.as_str())
    } else {
        tc
    };
    assert(text@ == duration_text(s@));
    let parts = split_chars(&text, ':');
    if parts.len() == 2 || parts.len() == 3 {
        return Ok(parts);
    }
    let mut m = String::from_str("expected M:SS.mmm, got ");
    let shown = string_from_chars(&text, 0, text.len());
    assert(shown@ =~= text@);
    m.append(shown.as_str());
    Err(m)
}

} // verus!
