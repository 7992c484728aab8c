//! Text helpers of the command-line tools: option values, HTML escaping, lap-time text,
//! track keys and recording file names.

use vstd::prelude::*;
use crate::text::{
    chars_of, decimal, push_char, push_decimal, push_zero_padded, str_eq, string_from_chars,
    to_lowercase, trim, trimmed, unicode_lowercase, zero_padded,
};

verus! {

/// The value that follows the first `key` among `args`, if any.
pub fn arg_value(args: &[String], key: &str) -> (r: Option<String>)
    ensures
        match r {
            Some(v) => exists|i: int|
                0 <= i < args@.len() - 1 && #[trigger] args@[i]@ == key@ && v@ == args@[i + 1]@
                    && forall|j: int| 0 <= j < i ==> #[trigger] args@[j]@ != key@,
            None => forall|i: int| 0 <= i < args@.len() - 1 ==> #[trigger] args@[i]@ != key@,
        },
{
    let n = args.len();
    if n < 2 {
        return None;
    }
    let mut i: usize = 0;
    while i < n - 1
        invariant
            n == args@.len(),
            n >= 2,
            i <= n - 1,
            forall|j: int| 0 <= j < i ==> #[trigger] args@[j]@ != key@,
        decreases n - 1 - i,
    {
        if str_eq(args[i].as_str(), key) {
            return Some(args[i + 1].clone());
        }
        i = i + 1;
    }
    None
}

/// The HTML text for one character.
pub open spec fn html_escape_char(c: char) -> Seq<char> {
    if c == '&' {
        "&amp;"@
    } else if c == '<' {
        "&lt;"@
    } else if c == '>' {
        "&gt;"@
    } else if c == '"' {
        "&quot;"@
    } else {
        seq![c]
    }
}

/// `s` with `&`, `<`, `>` and `"` replaced by HTML entities.
pub open spec fn html_escaped(s: Seq<char>) -> Seq<char>
    decreases s.len(),
{
    if s.len() == 0 {
        Seq::empty()
    } else {
        html_escaped(s.drop_last()) + html_escape_char(s.last())
    }
}

/// `s` with `&`, `<`, `>` and `"` replaced by HTML entities.
pub fn html_escape(s: &str) -> (r: String)
    ensures
        r@ == html_escaped(s@),
{
    let mut out = String::new();
    for c in it: s.chars()
        invariant
            out@ == html_escaped(it.seq().take(it.index() as int)),
    {
        assert(it.seq().take(it.index() + 1).drop_last() =~= it.seq().take(it.index() as int));
        if c == '&' {
            out.append("&amp;");
        } else if c == '<' {
            out.append("&lt;");
        } else if c == '>' {
            out.append("&gt;");
        } else if c == '"' {
            out.append("&quot;");
        } else {
            push_char(&mut out, c);
            assert(out@ =~= html_escaped(it.seq().take(it.index() as int)) + seq![c]);
        }
    }
    assert(s@.take(s@.len() as int) =~= s@);
    out
}

/// `M:SS.mmm` for a lap time in milliseconds, `-` for none.
pub open spec fn lap_time_text(ms: int) -> Seq<char> {
    if ms <= 0 {
        "-"@
    } else {
        decimal((ms / 60000) as nat) + ":"@ + zero_padded(((ms % 60000) / 1000) as nat, 2) + "."@
            + zero_padded((ms % 1000) as nat, 3)
    }
}

/// A lap time in milliseconds as `M:SS.mmm` (`-` when not positive).
pub fn ms_to_str(ms: i32) -> (r: String)
    ensures
        r@ == lap_time_text(ms as int),
{
    if ms <= 0 {
        return String::from_str("-");
    }
    let v = ms as u64;
    let mut out = String::new();
    push_decimal(&mut out, v / 60000);
    out.append(":");
    push_zero_padded(&mut out, (v % 60000) / 1000, 2);
    out.append(".");
    push_zero_padded(&mut out, v % 1000, 3);
    out
}

/// `s` with every space replaced by an underscore.
pub open spec fn spaces_to_underscores(s: Seq<char>) -> Seq<char> {
    s.map_values(|c: char| if c == ' ' { '_' } else { c })
}

/// The key a track name is looked up by: trimmed, lower-case, spaces as underscores.
pub fn normalize_track_key(s: &str) -> (r: String)
    ensures
        r@ == spaces_to_underscores(unicode_lowercase(trimmed(s@))),
{
    let t = trim(s);
    let lower = to_lowercase(t.as_str());
    track_key_from_lowercase(lower.as_str())
}

/// The track key of a name that is already trimmed and lower-cased: its spaces as
/// underscores.
pub fn track_key_from_lowercase(lower: &str) -> (r: String)
    ensures
        r@ == spaces_to_underscores(lower@),
{
    let mut out = String::new();
    for c in it: lower.chars()
        invariant
            out@ == spaces_to_underscores(it.seq().take(it.index() as int)),
    {
        push_char(&mut out, if c == ' ' { '_' } else { c });
        assert(out@ =~= spaces_to_underscores(it.seq().take(it.index() + 1)));
    }
    assert(lower@.take(lower@.len() as int) =~= lower@);
    out
}

/// The stem of a file name as `Path::file_stem` takes it: the name without its last
/// `.extension`, unless the only dot leads the name.
pub open spec fn file_stem_text(name: Seq<char>) -> Seq<char> {
    if name == ".."@ {
        name
    } else if exists|k: int| 0 < k < name.len() && name[k] == '.' {
        let k = choose|k: int|
            0 < k < name.len() && name[k] == '.' && forall|j: int| k < j < name.len() ==> name[j] != '.';
        name.take(k)
    } else {
        name
    }
}

/// The stem of a file name (see [`file_stem_text`]).
pub fn file_stem(name: &str) -> (r: String)
    ensures
        r@ == file_stem_text(name@),
{
    let cs = chars_of(name);
    proof {
        reveal_strlit("..");
    }
    if cs.len() == 2 && cs[0] == '.' && cs[1] == '.' {
        assert(cs@ =~= ".."@);
        return string_from_chars(&cs, 0, 2);
    }
    let mut k = cs.len();
    while k > 0 && cs[k - 1] != '.'
        invariant
            k <= cs@.len(),
            forall|j: int| k <= j < cs@.len() ==> cs@[j] != '.',
        decreases k,
    {
        k = k - 1;
    }
    if k <= 1 {
        // no dot after the first character
        proof {
            assert forall|j: int| 0 < j < cs@.len() implies cs@[j] != '.' by {
                if j >= k {
                } else {
                    assert(j == 0 || k == 1);
                }
            }
            if name@ == ".."@ {
                assert(cs@[0] == '.' && cs@[1] == '.');
            }
        }
        return string_from_chars(&cs, 0, cs.len());
    }
    let dot = k - 1;
    proof {
        if name@ == ".."@ {
            assert(cs@.len() == 2);
        }
        let kk = choose|q: int|
            0 < q < name@.len() && name@[q] == '.' && forall|j: int|
                q < j < name@.len() ==> name@[j] != '.';
        assert(kk == dot);
    }
    let r = string_from_chars(&cs, 0, dot);
    assert(r@ =~= name@.take(dot as int));
    r
}

/// The name of the graphics recording beside a physics recording named `file_name`.
pub fn graphics_sidecar_name(file_name: &str) -> (r: String)
    ensures
        r@ == file_stem_text(file_name@) + ".graphics.rkyv"@,
{
    let mut s = file_stem(file_name);
    s.append(".graphics.rkyv");
    s
}

} // verus!
