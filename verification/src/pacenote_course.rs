//! Pacenote courses: corner severities read from callout notes, track slugs, the stage
//! file chosen for a track, and the chaining of linked callouts.

use vstd::prelude::*;
use std::collections::HashSet;
use crate::text::{
    ascii_lower, ascii_lower_text, ascii_upper_text, chars_of, char_is_ascii_alnum,
    char_is_ascii_digit, char_to_ascii_lower, contains_str, contains_text, has_prefix,
    is_ascii_alnum, is_ascii_digit, is_ascii_lower, push_char, starts_with, str_eq,
    string_from_chars, to_ascii_lowercase, to_ascii_uppercase,
};

verus! {

// ---------------------------------------------------------------- corner severities

/// One atom of a pacenote feature: its kind, an explicit severity and a corner style.
pub struct GeoJsonAtom {
    pub kind: String,
    pub severity: Option<u8>,
    pub style: Option<String>,
}

/// The corner gear a lower-case corner style stands for.
pub open spec fn style_severity(t: Seq<char>) -> Option<u8> {
    if t == "hp"@ || t == "acutehp"@ {
        Some(1)
    } else if t == "square"@ || t == "chicane"@ || t == "chicaneentry"@ {
        Some(2)
    } else if t == "openhp"@ {
        Some(2)
    } else if t == "flat"@ {
        Some(3)
    } else if t == "kink"@ {
        Some(5)
    } else {
        None
    }
}

/// The corner gear a corner style stands for, in any ASCII case.
pub open spec fn style_gear(style: Seq<char>) -> Option<u8> {
    style_severity(ascii_lower_text(style))
}

/// The corner styles and their gears, in any ASCII case: hairpins (`hp`, `acutehp`) are
/// first gear; `square`, `chicane`, `chicaneentry` and `openhp` second; `flat` third;
/// `kink` fifth; no other style names a gear.
pub proof fn lemma_style_gears(style: Seq<char>)
    ensures
        ({
            let t = ascii_lower_text(style);
            &&& style_gear(style) == Some(1u8) <==> (t == "hp"@ || t == "acutehp"@)
            &&& style_gear(style) == Some(2u8) <==> (t == "square"@ || t == "chicane"@ || t
                == "chicaneentry"@ || t == "openhp"@)
            &&& style_gear(style) == Some(3u8) <==> t == "flat"@
            &&& style_gear(style) == Some(5u8) <==> t == "kink"@
            &&& style_gear(style) is None <==> !(t == "hp"@ || t == "acutehp"@ || t == "square"@ || t
                == "chicane"@ || t == "chicaneentry"@ || t == "openhp"@ || t == "flat"@ || t
                == "kink"@)
        }),
{
    reveal_strlit("hp");
    reveal_strlit("acutehp");
    reveal_strlit("square");
    reveal_strlit("chicane");
    reveal_strlit("chicaneentry");
    reveal_strlit("openhp");
    reveal_strlit("flat");
    reveal_strlit("kink");
    assert("chicane"@ != "acutehp"@) by {
        assert("chicane"@[0] != "acutehp"@[0]);
    }
    assert("openhp"@ != "square"@) by {
        assert("openhp"@[0] != "square"@[0]);
    }
    assert("kink"@ != "flat"@) by {
        assert("kink"@[0] != "flat"@[0]);
    }
    assert("square"@ != "hp"@ && "square"@ != "acutehp"@ && "chicane"@ != "hp"@) by {
        assert("square"@.len() != "hp"@.len() && "square"@.len() != "acutehp"@.len());
        assert("chicane"@.len() != "hp"@.len());
    }
    assert(style_severity("hp"@) == Some(1u8));
    assert(style_severity("acutehp"@) == Some(1u8));
    assert(style_severity("square"@) == Some(2u8));
    assert(style_severity("chicane"@) == Some(2u8));
    assert(style_severity("chicaneentry"@) == Some(2u8));
    assert(style_severity("openhp"@) == Some(2u8));
    assert(style_severity("flat"@) == Some(3u8));
    assert(style_severity("kink"@) == Some(5u8));
}

/// A note token is a direction (`Left` or `Right`, any ASCII case) followed by the gear's
/// digit or by a corner style, which gives the style's gear.
pub proof fn lemma_token_gear_of_style(dir: Seq<char>, style: Seq<char>)
    requires
        ascii_upper_text(dir) == "LEFT"@ || ascii_upper_text(dir) == "RIGHT"@,
        style.len() > 0,
        !is_ascii_digit(ascii_upper_text(style)[0]),
    ensures
        token_gear(dir + style) == style_gear(ascii_upper_text(style)),
{
    reveal_strlit("LEFT");
    reveal_strlit("RIGHT");
    let u = ascii_upper_text(dir + style);
    assert(u =~= ascii_upper_text(dir) + ascii_upper_text(style));
    let d = ascii_upper_text(dir);
    if d == "LEFT"@ {
        assert(u.take(4) =~= d);
        assert(u.skip(4) =~= ascii_upper_text(style));
    } else {
        assert(!has_prefix(u, "LEFT"@)) by {
            assert(u[0] == 'R');
            assert("LEFT"@[0] == 'L');
        }
        assert(u.take(5) =~= d);
        assert(u.skip(5) =~= ascii_upper_text(style));
    }
}

/// The corner gear a note token such as `Right3` or `LeftHP` stands for: the direction,
/// then a digit or a corner style.
pub open spec fn token_gear(token: Seq<char>) -> Option<u8> {
    let u = ascii_upper_text(token);
    let rest = if has_prefix(u, "LEFT"@) {
        Some(u.skip(4))
    } else if has_prefix(u, "RIGHT"@) {
        Some(u.skip(5))
    } else {
        None
    };
    match rest {
        None => None,
        Some(r) => if r.len() == 0 {
            None
        } else if is_ascii_digit(r[0]) {
            Some(((r[0] as u32) - 48) as u8)
        } else {
            style_gear(r)
        },
    }
}

/// The smaller of two optional gears.
pub open spec fn min_gear(a: Option<u8>, b: Option<u8>) -> Option<u8> {
    match (a, b) {
        (None, _) => b,
        (_, None) => a,
        (Some(x), Some(y)) => Some(if x <= y { x } else { y }),
    }
}

/// The smallest gear among the first `n` note tokens.
pub open spec fn notes_gear(notes: Seq<String>, n: int) -> Option<u8>
    decreases n,
{
    if n <= 0 {
        None
    } else {
        min_gear(notes_gear(notes, n - 1), token_gear(notes[n - 1]@))
    }
}

/// The gear a turn atom gives: its severity, else its style's.
pub open spec fn atom_gear(a: GeoJsonAtom) -> Option<u8> {
    if a.kind@ != "turn"@ {
        None
    } else {
        match a.severity {
            Some(v) => Some(v),
            None => match a.style {
                Some(s) => style_gear(s@),
                None => None,
            },
        }
    }
}

/// The smallest gear among the first `n` atoms.
pub open spec fn atoms_gear(atoms: Seq<GeoJsonAtom>, n: int) -> Option<u8>
    decreases n,
{
    if n <= 0 {
        None
    } else {
        min_gear(atoms_gear(atoms, n - 1), atom_gear(atoms[n - 1]))
    }
}

/// The corner gear of a callout: the smallest of its minimum turn severity, the gears of
/// its note tokens and those of its turn atoms.
pub open spec fn callout_gear(
    notes: Seq<String>,
    atoms: Seq<GeoJsonAtom>,
    turn_severity_min: Option<u8>,
) -> Option<u8> {
    min_gear(
        min_gear(turn_severity_min, notes_gear(notes, notes.len() as int)),
        atoms_gear(atoms, atoms.len() as int),
    )
}

/// The corner gear a lower-case style names.
fn severity_of_lower_style(t: &str) -> (r: Option<u8>)
    ensures
        r == style_severity(t@),
{
    if str_eq(t, "hp") || str_eq(t, "acutehp") {
        Some(1)
    } else if str_eq(t, "square") || str_eq(t, "chicane") || str_eq(t, "chicaneentry") {
        Some(2)
    } else if str_eq(t, "openhp") {
        Some(2)
    } else if str_eq(t, "flat") {
        Some(3)
    } else if str_eq(t, "kink") {
        Some(5)
    } else {
        None
    }
}

/// The corner gear a corner style stands for (`hp`, `square`, `flat`, `kink`, ...).
pub fn corner_gear_severity_from_style(style: &str) -> (r: Option<u8>)
    ensures
        r == style_gear(style@),
{
    let lower = to_ascii_lowercase(style);
    severity_of_lower_style(lower.as_str())
}

/// The corner gear a note token stands for (`Right3`, `LeftHP`, ...).
pub fn corner_gear_severity_from_token(token: &str) -> (r: Option<u8>)
    ensures
        r == token_gear(token@),
{
    let upper = to_ascii_uppercase(token);
    let cs = chars_of(upper.as_str());
    proof {
        reveal_strlit("LEFT");
        reveal_strlit("RIGHT");
    }
    let start: usize = if starts_with(upper.as_str(), "LEFT") {
        4
    } else if starts_with(upper.as_str(), "RIGHT") {
        5
    } else {
        return None;
    };
    if start == cs.len() {
        return None;
    }
    let rest = string_from_chars(&cs, start, cs.len());
    assert(rest@ =~= upper@.skip(start as int));
    let first = cs[start];
    assert(first == rest@[0]);
    if char_is_ascii_digit(first) {
        return Some(((first as u32) - 48) as u8);
    }
    corner_gear_severity_from_style(rest.as_str())
}

fn min_opt(a: Option<u8>, b: Option<u8>) -> (r: Option<u8>)
    ensures
        r == min_gear(a, b),
{
    match (a, b) {
        (None, _) => b,
        (_, None) => a,
        (Some(x), Some(y)) => Some(
            if x <= y {
                x
            } else {
                y
            },
        ),
    }
}

/// The corner gear of a callout, from its notes, atoms and minimum turn severity.
pub fn corner_gear_severity_for_callout(
    notes: &[String],
    atoms: &[GeoJsonAtom],
    turn_severity_min: Option<u8>,
) -> (r: Option<u8>)
    ensures
        r == callout_gear(notes@, atoms@, turn_severity_min),
{
    let mut from_notes: Option<u8> = None;
    let mut i: usize = 0;
    while i < notes.len()
        invariant
            i <= notes@.len(),
            from_notes == notes_gear(notes@, i as int),
        decreases notes@.len() - i,
    {
        let g = corner_gear_severity_from_token(notes[i].as_str());
        from_notes = min_opt(from_notes, g);
        i = i + 1;
    }
    let mut from_atoms: Option<u8> = None;
    let mut k: usize = 0;
    while k < atoms.len()
        invariant
            k <= atoms@.len(),
            from_atoms == atoms_gear(atoms@, k as int),
        decreases atoms@.len() - k,
    {
        let a = &atoms[k];
        let g: Option<u8> = if !str_eq(a.kind.as_str(), "turn") {
            None
        } else {
            match a.severity {
                Some(v) => Some(v),
                None => match &a.style {
                    Some(s) => corner_gear_severity_from_style(s.as_str()),
                    None => None,
                },
            }
        };
        from_atoms = min_opt(from_atoms, g);
        k = k + 1;
    }
    min_opt(min_opt(turn_severity_min, from_notes), from_atoms)
}

// ---------------------------------------------------------------- stage preference

/// Whether a stage slug or name marks the full stage (`full`, in any ASCII case).
pub fn stage_prefers_full(slug: &str, stage: &str) -> (r: bool)
    ensures
        r == (contains_text(ascii_lower_text(slug@), "full"@) || contains_text(
            ascii_lower_text(stage@),
            "full"@,
        )),
{
    let slug_l = to_ascii_lowercase(slug);
    let stage_l = to_ascii_lowercase(stage);
    contains_str(slug_l.as_str(), "full") || contains_str(stage_l.as_str(), "full")
}

// ---------------------------------------------------------------- gears

/// The driving gear for a game gear index (0 = reverse, 1 = neutral, 2.. = forward
/// gears), limited to 1..=6; none when reversing or in neutral.
pub fn driving_gear(acc_gear: i32) -> (r: Option<u8>)
    ensures
        acc_gear <= 1 ==> r is None || acc_gear == 1,
        acc_gear <= 0 ==> r is None,
        acc_gear > 0 ==> r == Some(
            (if acc_gear - 1 < 1 {
                1int
            } else if acc_gear - 1 > 6 {
                6int
            } else {
                acc_gear - 1
            }) as u8,
        ),
        r matches Some(g) ==> 1 <= g <= 6,
{
    if acc_gear <= 0 {
        return None;
    }
    let g = acc_gear - 1;
    let c: i32 = if g < 1 {
        1
    } else if g > 6 {
        6
    } else {
        g
    };
    Some(c as u8)
}

/// The number of gear steps between the driving gear (capped at the reference gear) and
/// the corner gear; none when the car is already in the corner's gear or lower. Each
/// step adds one gear step of lead time to a callout.
pub fn gear_lead_steps(driving_gear: u8, corner_gear: u8, reference_gear: u8) -> (r: u8)
    ensures
        driving_gear <= corner_gear ==> r == 0,
        driving_gear > corner_gear ==> r == ({
            let top = if driving_gear <= reference_gear {
                driving_gear
            } else {
                reference_gear
            };
            if top > corner_gear {
                top - corner_gear
            } else {
                0int
            }
        }),
{
    if driving_gear <= corner_gear {
        return 0;
    }
    let top = if driving_gear <= reference_gear {
        driving_gear
    } else {
        reference_gear
    };
    if top > corner_gear {
        top - corner_gear
    } else {
        0
    }
}

// ---------------------------------------------------------------- track slugs

/// The slug built so far from `s` and whether its last character is a separator.
pub open spec fn slug_raw(s: Seq<char>) -> (Seq<char>, bool)
    decreases s.len(),
{
    if s.len() == 0 {
        (Seq::empty(), true)
    } else {
        let prev = slug_raw(s.drop_last());
        let c = s.last();
        if is_ascii_alnum(c) {
            (prev.0.push(ascii_lower(c)), false)
        } else if !prev.1 {
            (prev.0.push('_'), true)
        } else {
            prev
        }
    }
}

/// `s` without trailing underscores.
pub open spec fn trim_underscores_end(s: Seq<char>) -> Seq<char>
    decreases s.len(),
{
    if s.len() > 0 && s.last() == '_' {
        trim_underscores_end(s.drop_last())
    } else {
        s
    }
}

/// The slug of a track name: lower-case ASCII letters and digits, each run of other
/// characters turned into one underscore, with no underscore at either end.
pub open spec fn track_slug(s: Seq<char>) -> Seq<char> {
    trim_underscores_end(slug_raw(s).0)
}

/// The characters a slug is made of.
pub open spec fn is_slug_char(c: char) -> bool {
    is_ascii_digit(c) || is_ascii_lower(c) || c == '_'
}

/// A well-formed slug: slug characters only, no underscore at either end, no two
/// underscores in a row.
pub open spec fn is_slug(t: Seq<char>) -> bool {
    &&& forall|i: int| 0 <= i < t.len() ==> is_slug_char(#[trigger] t[i])
    &&& (t.len() > 0 ==> t[0] != '_' && t.last() != '_')
    &&& forall|i: int| 0 <= i < t.len() - 1 ==> !(#[trigger] t[i] == '_' && t[i + 1] == '_')
}

/// The slug of a track name (see [`track_slug`]).
pub fn normalize_track_slug(name: &str) -> (r: String)
    ensures
        r@ == track_slug(name@),
{
    let mut out: Vec<char> = Vec::new();
    let mut prev_sep = true;
    for ch in it: name.chars()
        invariant
            (out@, prev_sep) == slug_raw(it.seq().take(it.index() as int)),
    {
        assert(it.seq().take(it.index() + 1).drop_last() =~= it.seq().take(it.index() as int));
        if char_is_ascii_alnum(ch) {
            out.push(char_to_ascii_lower(ch));
            prev_sep = false;
        } else if !prev_sep {
            out.push('_');
            prev_sep = true;
        }
    }
    assert(name@.take(name@.len() as int) =~= name@);
    let mut end = out.len();
    assert(out@.take(end as int) =~= out@);
    while end > 0 && out[end - 1] == '_'
        invariant
            end <= out@.len(),
            trim_underscores_end(out@.take(end as int)) == trim_underscores_end(out@),
        decreases end,
    {
        assert(out@.take(end as int).drop_last() =~= out@.take(end - 1));
        end = end - 1;
    }
    proof {
        assert(out@.take(out@.len() as int) =~= out@);
    }
    string_from_chars(&out, 0, end)
}

proof fn lemma_slug_raw_shape(s: Seq<char>)
    ensures
        ({
            let (o, p) = slug_raw(s);
            &&& forall|i: int| 0 <= i < o.len() ==> is_slug_char(#[trigger] o[i])
            &&& (o.len() > 0 ==> o[0] != '_')
            &&& forall|i: int| 0 <= i < o.len() - 1 ==> !(#[trigger] o[i] == '_' && o[i + 1] == '_')
            &&& p == (o.len() == 0 || o.last() == '_')
        }),
    decreases s.len(),
{
    if s.len() > 0 {
        lemma_slug_raw_shape(s.drop_last());
        let (po, pp) = slug_raw(s.drop_last());
        let c = s.last();
        let (o, p) = slug_raw(s);
        if is_ascii_alnum(c) {
            assert(o == po.push(ascii_lower(c)));
            assert forall|i: int| 0 <= i < o.len() implies is_slug_char(#[trigger] o[i]) by {
                if i < po.len() {
                    assert(o[i] == po[i]);
                }
            }
            assert forall|i: int| 0 <= i < o.len() - 1 implies !(#[trigger] o[i] == '_' && o[i
                + 1] == '_') by {
                if i < po.len() - 1 {
                    assert(o[i] == po[i] && o[i + 1] == po[i + 1]);
                }
            }
        } else if !pp {
            assert(o == po.push('_'));
            assert forall|i: int| 0 <= i < o.len() implies is_slug_char(#[trigger] o[i]) by {
                if i < po.len() {
                    assert(o[i] == po[i]);
                }
            }
            assert forall|i: int| 0 <= i < o.len() - 1 implies !(#[trigger] o[i] == '_' && o[i
                + 1] == '_') by {
                if i < po.len() - 1 {
                    assert(o[i] == po[i] && o[i + 1] == po[i + 1]);
                } else {
                    assert(o[i] == po.last());
                }
            }
        }
    }
}

proof fn lemma_trim_underscores_end(o: Seq<char>)
    requires
        forall|i: int| 0 <= i < o.len() ==> is_slug_char(#[trigger] o[i]),
        o.len() > 0 ==> o[0] != '_',
        forall|i: int| 0 <= i < o.len() - 1 ==> !(#[trigger] o[i] == '_' && o[i + 1] == '_'),
    ensures
        is_slug(trim_underscores_end(o)),
        trim_underscores_end(o).len() == o.len() || trim_underscores_end(o) == o.drop_last(),
{
    if o.len() > 0 && o.last() == '_' {
        let d = o.drop_last();
        if d.len() > 0 {
            assert(d.last() == o[o.len() - 2]);
            assert(!(o[o.len() - 2] == '_' && o[o.len() - 1] == '_'));
        }
        assert(trim_underscores_end(d) == d);
        assert forall|i: int| 0 <= i < d.len() implies is_slug_char(#[trigger] d[i]) by {
            assert(d[i] == o[i]);
        }
        assert forall|i: int| 0 <= i < d.len() - 1 implies !(#[trigger] d[i] == '_' && d[i + 1]
            == '_') by {
            assert(d[i] == o[i] && d[i + 1] == o[i + 1]);
        }
    }
}

/// Every slug is well formed: lower-case ASCII letters, digits and single underscores
/// between them.
pub proof fn lemma_track_slug_is_slug(s: Seq<char>)
    ensures
        is_slug(track_slug(s)),
{
    lemma_slug_raw_shape(s);
    lemma_trim_underscores_end(slug_raw(s).0);
}

proof fn lemma_slug_raw_of_slug(t: Seq<char>, n: int)
    requires
        is_slug(t),
        0 <= n <= t.len(),
    ensures
        slug_raw(t.take(n)) == (t.take(n), n == 0 || t[n - 1] == '_'),
    decreases n,
{
    if n > 0 {
        lemma_slug_raw_of_slug(t, n - 1);
        assert(t.take(n).drop_last() =~= t.take(n - 1));
        let c = t[n - 1];
        assert(t.take(n).last() == c);
        if is_ascii_alnum(c) {
            assert(ascii_lower(c) == c);
            assert(t.take(n - 1).push(c) =~= t.take(n));
        } else {
            assert(c == '_');
            assert(n - 1 > 0);
            assert(t[n - 2] != '_');
            assert(t.take(n - 1).push('_') =~= t.take(n));
        }
    }
}

/// A well-formed slug is its own slug, so slugging twice is slugging once.
pub proof fn lemma_track_slug_idempotent(s: Seq<char>)
    ensures
        track_slug(track_slug(s)) == track_slug(s),
{
    let t = track_slug(s);
    lemma_track_slug_is_slug(s);
    lemma_slug_raw_of_slug(t, t.len() as int);
    assert(t.take(t.len() as int) =~= t);
}

/// `t` without its underscores.
pub open spec fn without_underscores(t: Seq<char>) -> Seq<char>
    decreases t.len(),
{
    if t.len() == 0 {
        Seq::empty()
    } else if t.last() == '_' {
        without_underscores(t.drop_last())
    } else {
        without_underscores(t.drop_last()).push(t.last())
    }
}

/// The ASCII letters and digits of `s`, lower-cased, in order.
pub open spec fn ascii_alnum_lower(s: Seq<char>) -> Seq<char>
    decreases s.len(),
{
    if s.len() == 0 {
        Seq::empty()
    } else if is_ascii_alnum(s.last()) {
        ascii_alnum_lower(s.drop_last()).push(ascii_lower(s.last()))
    } else {
        ascii_alnum_lower(s.drop_last())
    }
}

proof fn lemma_slug_raw_letters(s: Seq<char>)
    ensures
        without_underscores(slug_raw(s).0) == ascii_alnum_lower(s),
    decreases s.len(),
{
    if s.len() > 0 {
        lemma_slug_raw_letters(s.drop_last());
        let prev = slug_raw(s.drop_last()).0;
        let c = s.last();
        if is_ascii_alnum(c) {
            let l = ascii_lower(c);
            assert(l != '_') by {
                if crate::text::is_ascii_upper(c) {
                    assert((c as u32) + 32 >= 97);
                }
            }
            assert(prev.push(l).drop_last() =~= prev);
        } else if !slug_raw(s.drop_last()).1 {
            assert(prev.push('_').drop_last() =~= prev);
        }
    }
}

proof fn lemma_trim_end_letters(o: Seq<char>)
    ensures
        without_underscores(trim_underscores_end(o)) == without_underscores(o),
    decreases o.len(),
{
    if o.len() > 0 && o.last() == '_' {
        lemma_trim_end_letters(o.drop_last());
    }
}

/// The slug keeps exactly the ASCII letters and digits of the name, lower-cased and in
/// order: only underscores are added.
pub proof fn lemma_track_slug_letters(s: Seq<char>)
    ensures
        without_underscores(track_slug(s)) == ascii_alnum_lower(s),
{
    lemma_slug_raw_letters(s);
    lemma_trim_end_letters(slug_raw(s).0);
}

// ---------------------------------------------------------------- stage files

/// The stem of a file named `name` when it is a `.geojson` file (the name without its
/// `.geojson` extension, not empty).
pub open spec fn geojson_stem(name: Seq<char>) -> Option<Seq<char>> {
    let ext = ".geojson"@;
    if name.len() > ext.len() && name.subrange(name.len() - ext.len(), name.len() as int) == ext {
        Some(name.subrange(0, name.len() - ext.len()))
    } else {
        None
    }
}

/// Whether the file named `name` is a `.geojson` file whose stem starts with `slug`.
pub open spec fn is_track_file(name: Seq<char>, slug: Seq<char>) -> bool {
    match geojson_stem(name) {
        Some(stem) => has_prefix(stem, slug),
        None => false,
    }
}

/// `a` sorts strictly before `b` (by characters, a prefix first).
pub open spec fn text_lt(a: Seq<char>, b: Seq<char>) -> bool
    decreases a.len(),
{
    if a.len() == 0 {
        b.len() > 0
    } else if b.len() == 0 {
        false
    } else if a[0] != b[0] {
        (a[0] as u32) < (b[0] as u32)
    } else {
        text_lt(a.drop_first(), b.drop_first())
    }
}

/// How many of the first `n` names are track files for `slug`.
pub open spec fn count_track_files(names: Seq<String>, slug: Seq<char>, n: int) -> int
    decreases n,
{
    if n <= 0 {
        0
    } else {
        count_track_files(names, slug, n - 1) + if is_track_file(names[n - 1]@, slug) {
            1int
        } else {
            0int
        }
    }
}

proof fn lemma_count_zero(names: Seq<String>, slug: Seq<char>, n: int)
    requires
        0 <= n <= names.len(),
        count_track_files(names, slug, n) == 0,
    ensures
        forall|j: int| 0 <= j < n ==> !is_track_file(#[trigger] names[j]@, slug),
    decreases n,
{
    if n > 0 {
        lemma_count_nonneg(names, slug, n - 1);
        lemma_count_zero(names, slug, n - 1);
    }
}

proof fn lemma_count_nonneg(names: Seq<String>, slug: Seq<char>, n: int)
    ensures
        count_track_files(names, slug, n) >= 0,
    decreases n,
{
    if n > 0 {
        lemma_count_nonneg(names, slug, n - 1);
    }
}

/// The file name a stage slug names.
pub open spec fn stage_file_name(slug: Seq<char>) -> Seq<char> {
    slug + ".geojson"@
}

/// The text after the last `/` of `s` (all of `s` when it has none).
pub open spec fn after_last_slash(s: Seq<char>) -> Seq<char>
    decreases s.len(),
{
    if s.len() == 0 {
        Seq::empty()
    } else if s.last() == '/' {
        Seq::empty()
    } else {
        after_last_slash(s.drop_last()).push(s.last())
    }
}

/// The stem of the stage file `<slug>.geojson` as a path names it: its last component
/// without the `.geojson` extension, or `.geojson` itself when nothing comes before the
/// extension (a name whose only dot comes first has no extension).
pub open spec fn stage_file_stem(slug: Seq<char>) -> Seq<char> {
    let c = after_last_slash(slug);
    if c.len() == 0 {
        ".geojson"@
    } else {
        c
    }
}

/// The stage file chosen for a reference track among the names of a directory's
/// entries: none for a blank track slug; the only file whose stem starts with the track
/// slug; among several, the one named by the stage slug, else the first by name; with no
/// such file, the stage's own file when it exists and the slug of its stem and the track
/// slug start one with the other.
pub open spec fn chosen_stage_file(
    names: Seq<String>,
    reference_track: Seq<char>,
    stage_slug: Option<Seq<char>>,
    stage_file_exists: bool,
    chosen: Option<Seq<char>>,
) -> bool {
    let rs = track_slug(reference_track);
    let matching = |n: Seq<char>| is_track_file(n, rs);
    let count = count_track_files(names, rs, names.len() as int);
    if rs.len() == 0 {
        chosen is None
    } else if count == 0 {
        match stage_slug {
            Some(slug) => {
                let sn = track_slug(stage_file_stem(slug));
                if stage_file_exists && (has_prefix(sn, rs) || has_prefix(rs, sn)) {
                    chosen == Some(stage_file_name(slug))
                } else {
                    chosen is None
                }
            },
            None => chosen is None,
        }
    } else if count == 1 {
        exists|i: int| 0 <= i < names.len() && matching(names[i]@) && chosen == Some(names[i]@)
    } else {
        match stage_slug {
            Some(slug) if exists|i: int|
                0 <= i < names.len() && matching(names[i]@) && geojson_stem(names[i]@) == Some(
                    slug,
                ) => chosen == Some(stage_file_name(slug)),
            _ => exists|i: int|
                0 <= i < names.len() && matching(names[i]@) && chosen == Some(names[i]@) && forall|
                    j: int,
                |
                    0 <= j < names.len() && matching(names[j]@) ==> !text_lt(names[j]@, names[i]@),
        }
    }
}

/// The stem of a `.geojson` file name (see [`geojson_stem`]).
fn geojson_stem_of(name: &Vec<char>) -> (r: Option<Vec<char>>)
    ensures
        match geojson_stem(name@) {
            Some(st) => r matches Some(v) && v@ == st,
            None => r is None,
        },
{
    let ext = chars_of(".geojson");
    proof {
        reveal_strlit(".geojson");
    }
    if name.len() <= ext.len() {
        return None;
    }
    if !crate::text::chars_match_at(name, name.len() - ext.len(), &ext) {
        return None;
    }
    let mut v: Vec<char> = Vec::new();
    let mut i: usize = 0;
    let end = name.len() - ext.len();
    while i < end
        invariant
            end == name@.len() - 8,
            i <= end,
            v@ == name@.subrange(0, i as int),
        decreases end - i,
    {
        v.push(name[i]);
        i = i + 1;
        assert(v@ =~= name@.subrange(0, i as int));
    }
    Some(v)
}

fn chars_have_prefix(s: &Vec<char>, p: &Vec<char>) -> (r: bool)
    ensures
        r == has_prefix(s@, p@),
{
    let r = crate::text::chars_match_at(s, 0, p);
    proof {
        if p@.len() <= s@.len() {
            assert(s@.take(p@.len() as int) =~= s@.subrange(0, p@.len() as int));
        }
    }
    r
}

fn chars_eq(a: &Vec<char>, b: &Vec<char>) -> (r: bool)
    ensures
        r == (a@ == b@),
{
    if a.len() != b.len() {
        return false;
    }
    let r = crate::text::chars_match_at(a, 0, b);
    proof {
        assert(a@.subrange(0, b@.len() as int) =~= a@);
    }
    r
}

proof fn lemma_text_lt_skip(a: Seq<char>, b: Seq<char>, i: int)
    requires
        0 <= i <= a.len(),
        i <= b.len(),
        a.take(i) == b.take(i),
    ensures
        text_lt(a, b) == text_lt(a.skip(i), b.skip(i)),
    decreases i,
{
    if i > 0 {
        assert(a[0] == a.take(i)[0]);
        assert(b[0] == b.take(i)[0]);
        assert(a.drop_first().take(i - 1) =~= a.take(i).drop_first());
        assert(b.drop_first().take(i - 1) =~= b.take(i).drop_first());
        lemma_text_lt_skip(a.drop_first(), b.drop_first(), i - 1);
        assert(a.drop_first().skip(i - 1) =~= a.skip(i));
        assert(b.drop_first().skip(i - 1) =~= b.skip(i));
    } else {
        assert(a.skip(0) =~= a);
        assert(b.skip(0) =~= b);
    }
}

pub(crate) proof fn lemma_text_lt_irreflexive(a: Seq<char>)
    ensures
        !text_lt(a, a),
    decreases a.len(),
{
    if a.len() > 0 {
        lemma_text_lt_irreflexive(a.drop_first());
    }
}

pub(crate) proof fn lemma_text_lt_transitive(a: Seq<char>, b: Seq<char>, c: Seq<char>)
    requires
        text_lt(a, b),
        text_lt(b, c),
    ensures
        text_lt(a, c),
    decreases a.len(),
{
    if a.len() > 0 && b.len() > 0 && c.len() > 0 && a[0] == b[0] && b[0] == c[0] {
        lemma_text_lt_transitive(a.drop_first(), b.drop_first(), c.drop_first());
    }
}

pub(crate) fn chars_lt(a: &Vec<char>, b: &Vec<char>) -> (r: bool)
    ensures
        r == text_lt(a@, b@),
{
    let mut i: usize = 0;
    while i < a.len() && i < b.len() && a[i] == b[i]
        invariant
            i <= a@.len(),
            i <= b@.len(),
            a@.take(i as int) == b@.take(i as int),
        decreases a@.len() - i,
    {
        assert(a@.take(i + 1) =~= a@.take(i as int).push(a@[i as int]));
        assert(b@.take(i + 1) =~= b@.take(i as int).push(b@[i as int]));
        i = i + 1;
    }
    proof {
        lemma_text_lt_skip(a@, b@, i as int);
    }
    if i == a.len() {
        return i < b.len();
    }
    if i == b.len() {
        return false;
    }
    assert(a@.skip(i as int)[0] == a@[i as int]);
    assert(b@.skip(i as int)[0] == b@[i as int]);
    (a[i] as u32) < (b[i] as u32)
}

/// The stem of the stage file `<slug>.geojson` (see [`stage_file_stem`]).
fn stage_file_stem_of(slug: &str) -> (r: String)
    ensures
        r@ == stage_file_stem(slug@),
{
    let cs = chars_of(slug);
    let n = cs.len();
    let mut start: usize = 0;
    let mut i: usize = 0;
    while i < n
        invariant
            n == cs@.len(),
            start <= i <= n,
            after_last_slash(cs@.take(i as int)) == cs@.subrange(start as int, i as int),
        decreases n - i,
    {
        assert(cs@.take(i + 1).drop_last() =~= cs@.take(i as int));
        if cs[i] == '/' {
            start = i + 1;
            assert(cs@.subrange(start as int, i + 1) =~= Seq::<char>::empty());
        } else {
            assert(cs@.subrange(start as int, i + 1) =~= cs@.subrange(start as int, i as int).push(
                cs@[i as int],
            ));
        }
        i = i + 1;
    }
    assert(cs@.take(n as int) =~= cs@);
    if start == n {
        proof {
            reveal_strlit(".geojson");
        }
        String::from_str(".geojson")
    } else {
        string_from_chars(&cs, start, n)
    }
}

/// The file chosen for a reference track among the entry names of the stage directory
/// (see [`chosen_stage_file`]); `stage_file_exists` tells whether the stage slug's own
/// `.geojson` file exists there as a file.
pub fn resolve_geojson_path(
    names: &Vec<String>,
    reference_track: &str,
    stage_slug: Option<&str>,
    stage_file_exists: bool,
) -> (r: Option<String>)
    ensures
        chosen_stage_file(
            names@,
            reference_track@,
            match stage_slug {
                Some(s) => Some(s@),
                None => None,
            },
            stage_file_exists,
            match r {
                Some(s) => Some(s@),
                None => None,
            },
        ),
{
    let ghost slug_view: Option<Seq<char>> = match stage_slug {
        Some(s) => Some(s@),
        None => None,
    };
    let ref_slug_s = normalize_track_slug(reference_track);
    let ref_slug = chars_of(ref_slug_s.as_str());
    if ref_slug.len() == 0 {
        return None;
    }
    let slug_chars: Option<Vec<char>> = match stage_slug {
        Some(s) => Some(chars_of(s)),
        None => None,
    };
    let mut count: usize = 0;
    let mut best: usize = 0;
    let mut stem_named = false;
    let mut i: usize = 0;
    while i < names.len()
        invariant
            i <= names@.len(),
            ref_slug@ == track_slug(reference_track@),
            slug_view == match stage_slug {
                Some(s) => Some(s@),
                None => None::<Seq<char>>,
            },
            match stage_slug {
                Some(s) => slug_chars matches Some(v) && v@ == s@,
                None => slug_chars is None,
            },
            count == count_track_files(names@, ref_slug@, i as int),
            count <= i,
            count > 0 ==> best < i && is_track_file(names@[best as int]@, ref_slug@) && forall|
                j: int,
            |
                0 <= j < i && is_track_file(names@[j]@, ref_slug@) ==> !text_lt(
                    names@[j]@,
                    names@[best as int]@,
                ),
            stem_named <==> (slug_view matches Some(sl) && exists|j: int|
                0 <= j < i && is_track_file(names@[j]@, ref_slug@) && geojson_stem(names@[j]@)
                    == Some(sl)),
        decreases names@.len() - i,
    {
        let name = chars_of(names[i].as_str());
        let ghost old_best = best;
        let ghost old_count = count;
        match geojson_stem_of(&name) {
            Some(stem) => {
                if chars_have_prefix(&stem, &ref_slug) {
                    assert(is_track_file(names@[i as int]@, ref_slug@));
                    if count == 0 {
                        best = i;
                        proof {
                            lemma_text_lt_irreflexive(name@);
                            lemma_count_zero(names@, ref_slug@, i as int);
                        }
                    } else {
                        let cur = chars_of(names[best].as_str());
                        if chars_lt(&name, &cur) {
                            best = i;
                            proof {
                                lemma_text_lt_irreflexive(name@);
                                assert forall|j: int|
                                    0 <= j < i && is_track_file(names@[j]@, ref_slug@) implies !text_lt(
                                    names@[j]@,
                                    name@,
                                ) by {
                                    if text_lt(names@[j]@, name@) {
                                        lemma_text_lt_transitive(names@[j]@, name@, cur@);
                                    }
                                }
                            }
                        }
                    }
                    count = count + 1;
                    match &slug_chars {
                        Some(sc) => {
                            if chars_eq(&stem, sc) {
                                stem_named = true;
                                assert(geojson_stem(names@[i as int]@) == Some(sc@));
                            } else {
                                assert(geojson_stem(names@[i as int]@) != Some(sc@));
                            }
                        },
                        None => {},
                    }
                } else {
                    assert(!is_track_file(names@[i as int]@, ref_slug@));
                }
            },
            None => {
                assert(!is_track_file(names@[i as int]@, ref_slug@));
            },
        }
        i = i + 1;
    }
    if count == 0 {
        return match stage_slug {
            Some(slug) => {
                let stem = stage_file_stem_of(slug);
                let sn = chars_of(normalize_track_slug(stem.as_str()).as_str());
                if stage_file_exists && (chars_have_prefix(&sn, &ref_slug) || chars_have_prefix(
                    &ref_slug,
                    &sn,
                )) {
                    let mut f = String::new();
                    f.append(slug);
                    f.append(".geojson");
                    Some(f)
                } else {
                    None
                }
            },
            None => None,
        };
    }
    if count == 1 {
        return Some(names[best].clone());
    }
    if stem_named {
        match stage_slug {
            Some(slug) => {
                let mut f = String::new();
                f.append(slug);
                f.append(".geojson");
                return Some(f);
            },
            None => {},
        }
    }
    Some(names[best].clone())
}

// ---------------------------------------------------------------- courses

/// The stage picked for a position: its reference track, slug, file path and name.
pub struct PacenoteStagePick {
    pub reference_track: String,
    pub slug: String,
    pub path: String,
    pub stage: String,
}

/// One callout of a course (its map position is kept beside the course by the caller).
pub struct PacenoteCallout {
    pub index: usize,
    pub notes: Vec<String>,
    pub notes_text: String,
    pub link_to_next: bool,
    pub max_turn_severity: Option<u8>,
}

/// A pacenote course: the stage, its reference track and the callouts in order.
pub struct PacenoteCourse {
    pub stage: String,
    pub reference_track: String,
    pub callouts: Vec<PacenoteCallout>,
}

/// The smallest severity among callouts `start..end` (exclusive), starting from 6.
pub open spec fn chain_urgency(cs: Seq<PacenoteCallout>, start: int, end: int) -> int
    decreases end - start,
{
    if end <= start {
        6
    } else {
        let prev = chain_urgency(cs, start, end - 1);
        match cs[end - 1].max_turn_severity {
            Some(v) => if v < prev {
                v as int
            } else {
                prev
            },
            None => prev,
        }
    }
}

/// The last position of the chain of linked callouts that starts at `start`.
pub open spec fn chain_end(cs: Seq<PacenoteCallout>, start: int) -> int
    decreases cs.len() - start,
{
    if start < 0 || start >= cs.len() - 1 || !cs[start].link_to_next {
        start
    } else {
        chain_end(cs, start + 1)
    }
}

/// The notes of callouts `start..end` (exclusive), one after the other.
pub open spec fn chain_notes(cs: Seq<PacenoteCallout>, start: int, end: int) -> Seq<String>
    decreases end - start,
{
    if end <= start {
        Seq::empty()
    } else {
        chain_notes(cs, start, end - 1) + cs[end - 1].notes@
    }
}

/// The end of a chain lies after its start and is the first unlinked callout from the
/// start, or the last callout.
pub proof fn lemma_chain_end(cs: Seq<PacenoteCallout>, start: int)
    requires
        0 <= start < cs.len(),
    ensures
        start <= chain_end(cs, start) < cs.len(),
        !cs[chain_end(cs, start)].link_to_next || chain_end(cs, start) == cs.len() - 1,
        forall|j: int| start <= j < chain_end(cs, start) ==> #[trigger] cs[j].link_to_next,
    decreases cs.len() - start,
{
    if start < cs.len() - 1 && cs[start].link_to_next {
        lemma_chain_end(cs, start + 1);
    }
}

impl PacenoteCourse {
    /// The position of the first callout whose index has not been triggered.
    pub fn next_callout_pos(&self, triggered: &HashSet<usize>) -> (r: Option<usize>)
        ensures
            match r {
                Some(p) => p < self.callouts@.len() && !triggered@.contains(
                    self.callouts@[p as int].index,
                ) && forall|j: int|
                    0 <= j < p ==> triggered@.contains(#[trigger] self.callouts@[j].index),
                None => forall|j: int|
                    0 <= j < self.callouts@.len() ==> triggered@.contains(
                        #[trigger] self.callouts@[j].index,
                    ),
            },
    {
        broadcast use vstd::std_specs::hash::group_hash_axioms;

        let mut i: usize = 0;
        while i < self.callouts.len()
            invariant
                i <= self.callouts@.len(),
                forall|j: int| 0 <= j < i ==> triggered@.contains(#[trigger] self.callouts@[j].index),
            decreases self.callouts@.len() - i,
        {
            if !triggered.contains(&self.callouts[i].index) {
                return Some(i);
            }
            i = i + 1;
        }
        None
    }

    /// The last position of the chain of linked callouts that starts at `start`: the
    /// first callout from `start` on that does not link to the next one, or the last
    /// callout.
    pub fn callout_chain_end_pos(&self, start: usize) -> (r: usize)
        requires
            start < self.callouts@.len(),
        ensures
            r == chain_end(self.callouts@, start as int),
            start <= r < self.callouts@.len(),
            !self.callouts@[r as int].link_to_next || r == self.callouts@.len() - 1,
            forall|j: int| start <= j < r ==> #[trigger] self.callouts@[j].link_to_next,
    {
        proof {
            lemma_chain_end(self.callouts@, start as int);
        }
        let mut pos = start;
        while self.callouts[pos].link_to_next && pos < self.callouts.len() - 1
            invariant
                start <= pos < self.callouts@.len(),
                chain_end(self.callouts@, pos as int) == chain_end(self.callouts@, start as int),
                forall|j: int| start <= j < pos ==> #[trigger] self.callouts@[j].link_to_next,
            decreases self.callouts@.len() - pos,
        {
            pos = pos + 1;
        }
        pos
    }

    /// The most urgent (smallest) corner severity of callouts `start..=end`, 6 when
    /// none has one.
    pub fn callout_chain_urgency(&self, start: usize, end: usize) -> (r: u8)
        requires
            start <= end + 1,
            end < self.callouts@.len(),
        ensures
            r == chain_urgency(self.callouts@, start as int, end + 1),
            r <= 6,
            forall|j: int|
                start <= j <= end ==> (#[trigger] self.callouts@[j].max_turn_severity matches Some(
                    v,
                ) ==> r <= v),
    {
        let mut urgency: u8 = 6;
        let mut i = start;
        while i <= end
            invariant
                start <= i <= end + 1,
                end < self.callouts.len(),
                urgency == chain_urgency(self.callouts@, start as int, i as int),
                urgency <= 6,
                forall|j: int|
                    start <= j < i ==> (#[trigger] self.callouts@[j].max_turn_severity matches Some(
                        v,
                    ) ==> urgency <= v),
            decreases end + 1 - i,
        {
            if let Some(severity) = self.callouts[i].max_turn_severity {
                if severity < urgency {
                    urgency = severity;
                }
            }
            i = i + 1;
        }
        urgency
    }

    /// The notes and indices of the chain of linked callouts that starts at `start`, in
    /// order: the callouts from `start` to the end of the chain.
    pub fn collect_callout_tokens(&self, start: usize) -> (r: (Vec<String>, Vec<usize>))
        requires
            start < self.callouts@.len(),
        ensures
            r.0@ == chain_notes(self.callouts@, start as int, chain_end(self.callouts@, start as int) + 1),
            r.1@.len() == chain_end(self.callouts@, start as int) + 1 - start,
            forall|k: int| 0 <= k < r.1@.len() ==> #[trigger] r.1@[k] == self.callouts@[start + k].index,
    {
        let mut tokens: Vec<String> = Vec::new();
        let mut indices: Vec<usize> = Vec::new();
        let mut pos = start;
        loop
            invariant
                start <= pos < self.callouts@.len(),
                chain_end(self.callouts@, pos as int) == chain_end(self.callouts@, start as int),
                tokens@ == chain_notes(self.callouts@, start as int, pos as int),
                indices@.len() == pos - start,
                forall|k: int| 0 <= k < indices@.len() ==> #[trigger] indices@[k] == self.callouts@[start + k].index,
            decreases self.callouts@.len() - pos,
        {
            let callout = &self.callouts[pos];
            indices.push(callout.index);
            let mut i: usize = 0;
            let ghost before = tokens@;
            while i < callout.notes.len()
                invariant
                    i <= callout.notes@.len(),
                    tokens@ == before + callout.notes@.take(i as int),
                decreases callout.notes@.len() - i,
            {
                tokens.push(callout.notes[i].clone());
                assert(callout.notes@.take(i + 1) =~= callout.notes@.take(i as int).push(callout.notes@[i as int]));
                i = i + 1;
            }
            assert(callout.notes@.take(callout.notes@.len() as int) =~= callout.notes@);
            if callout.link_to_next && pos < self.callouts.len() - 1 {
                pos = pos + 1;
            } else {
                return (tokens, indices);
            }
        }
    }
}

/// The overlay text while the stage is ambiguous: a help line, then one line per
/// candidate stage (`>` marks the chosen one) with its slug and reference track.
pub open spec fn picker_text(candidates: Seq<PacenoteStagePick>, chosen: int) -> Seq<char> {
    "pacenote pick: Ctrl+Up/Down/Left/Right  Ctrl+Enter"@ + picker_lines(candidates, chosen, candidates.len() as int)
}

/// The candidate lines of the picker overlay for the first `n` candidates, each after a
/// line break.
pub open spec fn picker_lines(candidates: Seq<PacenoteStagePick>, chosen: int, n: int) -> Seq<char>
    decreases n,
{
    if n <= 0 {
        Seq::empty()
    } else {
        picker_lines(candidates, chosen, n - 1) + "\n"@ + (if n - 1 == chosen {
            ">"@
        } else {
            " "@
        }) + " "@ + candidates[n - 1].slug@ + "  ("@ + candidates[n - 1].reference_track@ + ")"@
    }
}

/// The overlay text offering the candidate stages, with candidate `index` marked.
pub fn build_ambiguous_pacenote_overlay_text(candidates: &Vec<PacenoteStagePick>, index: usize) -> (r:
    String)
    ensures
        r@ == picker_text(candidates@, index as int),
{
    let mut out = String::from_str("pacenote pick: Ctrl+Up/Down/Left/Right  Ctrl+Enter");
    let mut i: usize = 0;
    proof {
        reveal_strlit("pacenote pick: Ctrl+Up/Down/Left/Right  Ctrl+Enter");
    }
    while i < candidates.len()
        invariant
            i <= candidates@.len(),
            out@ == "pacenote pick: Ctrl+Up/Down/Left/Right  Ctrl+Enter"@ + picker_lines(
                candidates@,
                index as int,
                i as int,
            ),
        decreases candidates@.len() - i,
    {
        let ghost before = out@;
        out.append("\n");
        if i == index {
            out.append(">");
        } else {
            out.append(" ");
        }
        out.append(" ");
        out.append(candidates[i].slug.as_str());
        out.append("  (");
        out.append(candidates[i].reference_track.as_str());
        out.append(")");
        proof {
            reveal_strlit("\n");
            reveal_strlit(">");
            reveal_strlit(" ");
            reveal_strlit("  (");
            reveal_strlit(")");
            assert(out@ =~= "pacenote pick: Ctrl+Up/Down/Left/Right  Ctrl+Enter"@ + picker_lines(
                candidates@,
                index as int,
                i + 1,
            ));
        }
        i = i + 1;
    }
    out
}

/// The only track with a start point near the car: `near[i]` tells whether track
/// `tracks[i]` has one; none when no track or several have one.
pub fn select_track_from_starts(tracks: &Vec<String>, near: &Vec<bool>) -> (r: Option<String>)
    requires
        tracks@.len() == near@.len(),
    ensures
        match r {
            Some(t) => exists|i: int|
                0 <= i < near@.len() && near@[i] && t@ == tracks@[i]@ && forall|j: int|
                    0 <= j < near@.len() && j != i ==> !#[trigger] near@[j],
            None => (forall|i: int| 0 <= i < near@.len() ==> !#[trigger] near@[i]) || exists|
                i: int,
                j: int,
            | 0 <= i < j < near@.len() && #[trigger] near@[i] && #[trigger] near@[j],
        },
{
    let mut found: Option<usize> = None;
    let mut i: usize = 0;
    while i < near.len()
        invariant
            i <= near@.len(),
            tracks@.len() == near@.len(),
            match found {
                Some(f) => f < i && near@[f as int] && forall|j: int| 0 <= j < i && j != f ==> !#[trigger] near@[j],
                None => forall|j: int| 0 <= j < i ==> !#[trigger] near@[j],
            },
        decreases near@.len() - i,
    {
        if near[i] {
            if found.is_some() {
                return None;
            }
            found = Some(i);
        }
        i = i + 1;
    }
    match found {
        Some(f) => Some(tracks[f].clone()),
        None => None,
    }
}

} // verus!
