//! Text for the on-screen overlay: messages made safe for RivaTuner's OSD and the
//! two-line status display.

use vstd::prelude::*;
use crate::text::{push_char, trim, trimmed};

verus! {

/// How a character of a message is shown: layout characters of the OSD are replaced,
/// tabs become spaces, carriage returns become line breaks, other control and
/// non-ASCII characters become `?`.
pub open spec fn rtss_char(c: char) -> char {
    if c == '|' {
        ' '
    } else if c == '[' {
        '('
    } else if c == ']' {
        ')'
    } else if c == '\r' || c == '\n' {
        '\n'
    } else if c == '\t' {
        ' '
    } else if ' ' <= c && c <= '~' {
        c
    } else {
        '?'
    }
}

/// The lines of a mapped message built so far, the current line with its runs of spaces
/// collapsed, and whether a space is pending before the next word.
pub open spec fn line_fold(t: Seq<char>) -> (Seq<Seq<char>>, Seq<char>, bool)
    decreases t.len(),
{
    if t.len() == 0 {
        (Seq::empty(), Seq::empty(), false)
    } else {
        let (ls, cur, gap) = line_fold(t.drop_last());
        let c = t.last();
        if c == '\n' {
            (ls.push(cur), Seq::empty(), false)
        } else if c == ' ' {
            (ls, cur, cur.len() > 0)
        } else if gap {
            (ls, cur.push(' ').push(c), false)
        } else {
            (ls, cur.push(c), false)
        }
    }
}

/// The lines of a text (as `str::lines` gives them; a final line break ends the last
/// line), each with its words joined by single spaces.
pub open spec fn collapsed_lines(t: Seq<char>) -> Seq<Seq<char>> {
    let (ls, cur, _) = line_fold(t);
    if t.len() == 0 || t.last() == '\n' {
        ls
    } else {
        ls.push(cur)
    }
}

/// The number of lines kept: between 2 and 32.
pub open spec fn clamp_lines(max_lines: int) -> int {
    if max_lines < 2 {
        2
    } else if max_lines > 32 {
        32
    } else {
        max_lines
    }
}

/// The lines padded with empty lines to at least two and cut to at most `m`.
pub open spec fn fit_lines(ls: Seq<Seq<char>>, m: int) -> Seq<Seq<char>> {
    let padded = if ls.len() < 2 {
        ls + Seq::new((2 - ls.len()) as nat, |i: int| Seq::<char>::empty())
    } else {
        ls
    };
    if padded.len() > m {
        padded.take(m)
    } else {
        padded
    }
}

/// The lines joined by line breaks.
pub open spec fn join_lines(ls: Seq<Seq<char>>) -> Seq<char>
    decreases ls.len(),
{
    if ls.len() == 0 {
        Seq::empty()
    } else if ls.len() == 1 {
        ls[0]
    } else {
        join_lines(ls.drop_last()) + seq!['\n'] + ls.last()
    }
}

/// The lines of an OSD message.
pub open spec fn rtss_lines(msg: Seq<char>, max_lines: int) -> Seq<Seq<char>> {
    fit_lines(collapsed_lines(msg.map_values(|c: char| rtss_char(c))), clamp_lines(max_lines))
}

/// A character an OSD line may hold.
pub open spec fn is_rtss_safe(c: char) -> bool {
    ' ' <= c && c <= '~' && c != '|' && c != '[' && c != ']'
}

proof fn lemma_line_fold_safe(t: Seq<char>)
    requires
        forall|i: int| 0 <= i < t.len() ==> is_rtss_safe(#[trigger] t[i]) || t[i] == '\n',
    ensures
        ({
            let (ls, cur, gap) = line_fold(t);
            &&& forall|k: int, i: int|
                0 <= k < ls.len() && 0 <= i < ls[k].len() ==> is_rtss_safe(#[trigger] ls[k][i])
            &&& forall|i: int| 0 <= i < cur.len() ==> is_rtss_safe(#[trigger] cur[i])
        }),
    decreases t.len(),
{
    if t.len() > 0 {
        assert forall|i: int| 0 <= i < t.drop_last().len() implies is_rtss_safe(
            #[trigger] t.drop_last()[i],
        ) || t.drop_last()[i] == '\n' by {
            assert(t.drop_last()[i] == t[i]);
        }
        lemma_line_fold_safe(t.drop_last());
        let (ls, cur, gap) = line_fold(t.drop_last());
        let c = t.last();
        assert(is_rtss_safe(c) || c == '\n');
        if c == '\n' {
            let nls = ls.push(cur);
            assert forall|k: int, i: int|
                0 <= k < nls.len() && 0 <= i < nls[k].len() implies is_rtss_safe(
                #[trigger] nls[k][i],
            ) by {
                if k < ls.len() {
                    assert(nls[k] == ls[k]);
                }
            }
        } else if c != ' ' {
            let ncur = if gap {
                cur.push(' ').push(c)
            } else {
                cur.push(c)
            };
            assert forall|i: int| 0 <= i < ncur.len() implies is_rtss_safe(#[trigger] ncur[i]) by {
                if i < cur.len() {
                    assert(ncur[i] == cur[i]);
                }
            }
        }
    }
}

/// A message made fit for the OSD: every line holds only safe characters, and there are
/// between two and `max_lines` (limited to 2..=32) lines.
pub proof fn lemma_rtss_lines_safe(msg: Seq<char>, max_lines: int)
    ensures
        ({
            let ls = rtss_lines(msg, max_lines);
            &&& 2 <= ls.len() <= clamp_lines(max_lines)
            &&& forall|k: int, i: int|
                0 <= k < ls.len() && 0 <= i < ls[k].len() ==> is_rtss_safe(#[trigger] ls[k][i])
        }),
{
    let t = msg.map_values(|c: char| rtss_char(c));
    assert forall|i: int| 0 <= i < t.len() implies is_rtss_safe(#[trigger] t[i]) || t[i] == '\n' by {
    }
    lemma_line_fold_safe(t);
    let (ls0, cur, gap) = line_fold(t);
    let ls = collapsed_lines(t);
    assert forall|k: int, i: int| 0 <= k < ls.len() && 0 <= i < ls[k].len() implies is_rtss_safe(
        #[trigger] ls[k][i],
    ) by {
        if k < ls0.len() {
            assert(ls[k] == ls0[k]);
        }
    }
    let m = clamp_lines(max_lines);
    let padded = if ls.len() < 2 {
        ls + Seq::new((2 - ls.len()) as nat, |i: int| Seq::<char>::empty())
    } else {
        ls
    };
    assert forall|k: int, i: int|
        0 <= k < padded.len() && 0 <= i < padded[k].len() implies is_rtss_safe(
        #[trigger] padded[k][i],
    ) by {
        if k < ls.len() {
            assert(padded[k] == ls[k]);
        }
    }
    let f = fit_lines(ls, m);
    assert forall|k: int, i: int| 0 <= k < f.len() && 0 <= i < f[k].len() implies is_rtss_safe(
        #[trigger] f[k][i],
    ) by {
        assert(f[k] == padded[k]);
    }
}

/// A message made fit for RivaTuner's OSD (see [`rtss_lines`]), lines joined by line
/// breaks.
pub fn sanitize_for_rtss(msg: &str, max_lines: usize) -> (r: String)
    ensures
        r@ == join_lines(rtss_lines(msg@, max_lines as int)),
{
    // map the characters
    let mut t: Vec<char> = Vec::new();
    for ch in it: msg.chars()
        invariant
            t@ == it.seq().take(it.index() as int).map_values(|c: char| rtss_char(c)),
    {
        let mapped = if ch == '|' {
            ' '
        } else if ch == '[' {
            '('
        } else if ch == ']' {
            ')'
        } else if ch == '\r' || ch == '\n' {
            '\n'
        } else if ch == '\t' {
            ' '
        } else if ' ' <= ch && ch <= '~' {
            ch
        } else {
            '?'
        };
        t.push(mapped);
        assert(t@ =~= it.seq().take(it.index() + 1).map_values(|c: char| rtss_char(c)));
    }
    assert(msg@.take(msg@.len() as int) =~= msg@);
    // split into lines, collapsing runs of spaces
    let mut lines: Vec<Vec<char>> = Vec::new();
    let mut cur: Vec<char> = Vec::new();
    let mut gap = false;
    let mut i: usize = 0;
    while i < t.len()
        invariant
            i <= t@.len(),
            line_fold(t@.take(i as int)) == (lines@.map_values(|l: Vec<char>| l@), cur@, gap),
        decreases t@.len() - i,
    {
        assert(t@.take(i + 1).drop_last() =~= t@.take(i as int));
        let c = t[i];
        if c == '\n' {
            let ghost before = lines@;
            let done = cur;
            lines.push(done);
            cur = Vec::new();
            gap = false;
            assert(lines@.map_values(|l: Vec<char>| l@) =~= before.map_values(|l: Vec<char>| l@).push(
                done@,
            ));
        } else if c == ' ' {
            gap = cur.len() > 0;
        } else {
            if gap {
                cur.push(' ');
            }
            cur.push(c);
            gap = false;
        }
        i = i + 1;
    }
    assert(t@.take(t@.len() as int) =~= t@);
    if t.len() > 0 && t[t.len() - 1] != '\n' {
        let ghost before = lines@;
        let last = cur;
        lines.push(last);
        assert(lines@.map_values(|l: Vec<char>| l@) =~= before.map_values(|l: Vec<char>| l@).push(
            last@,
        ));
    }
    let ghost collapsed = collapsed_lines(t@);
    assert(lines@.map_values(|l: Vec<char>| l@) == collapsed);
    // at least two lines, at most the limit
    let ghost v0 = lines@;
    if lines.len() < 2 {
        lines.push(Vec::new());
    }
    let ghost v1 = lines@;
    if lines.len() < 2 {
        lines.push(Vec::new());
    }
    proof {
        let empty = Seq::<char>::empty();
        if v0.len() == 0 {
            assert(lines@.map_values(|l: Vec<char>| l@) =~= seq![empty, empty]);
        } else if v0.len() == 1 {
            assert(lines@.map_values(|l: Vec<char>| l@) =~= v0.map_values(|l: Vec<char>| l@).push(
                empty,
            ));
        } else {
            assert(lines@ == v0);
        }
    }
    let m: usize = if max_lines < 2 {
        2
    } else if max_lines > 32 {
        32
    } else {
        max_lines
    };
    let ghost fitted = rtss_lines(msg@, max_lines as int);
    let ghost padded = if collapsed.len() < 2 {
        collapsed + Seq::new((2 - collapsed.len()) as nat, |k: int| Seq::<char>::empty())
    } else {
        collapsed
    };
    assert(lines@.map_values(|l: Vec<char>| l@) =~= padded);
    let keep: usize = if lines.len() > m {
        m
    } else {
        lines.len()
    };
    assert(fitted =~= padded.take(keep as int));
    // join
    let mut out = String::new();
    let mut k: usize = 0;
    while k < keep
        invariant
            keep <= lines@.len(),
            k <= keep,
            lines@.map_values(|l: Vec<char>| l@) == padded,
            out@ == join_lines(padded.take(k as int)),
        decreases keep - k,
    {
        if k > 0 {
            push_char(&mut out, '\n');
        }
        let line = &lines[k];
        assert(line@ == padded[k as int]);
        let ghost before = out@;
        let mut j: usize = 0;
        while j < line.len()
            invariant
                j <= line@.len(),
                out@ == before + line@.take(j as int),
            decreases line@.len() - j,
        {
            push_char(&mut out, line[j]);
            j = j + 1;
            assert(out@ =~= before + line@.take(j as int));
        }
        assert(line@.take(line@.len() as int) =~= line@);
        assert(padded.take(k + 1).drop_last() =~= padded.take(k as int));
        if k == 0 {
            assert(out@ =~= join_lines(padded.take(1)));
        } else {
            assert(out@ =~= join_lines(padded.take(k + 1)));
        }
        k = k + 1;
    }
    out
}

/// The two-line status text: the trimmed status, a line break and the trimmed detail.
pub open spec fn two_line_osd(status: Seq<char>, detail: Seq<char>) -> Seq<char> {
    let s = trimmed(status);
    let d = trimmed(detail);
    if d.len() == 0 {
        s + seq!['\n']
    } else {
        s + seq!['\n'] + d
    }
}

/// The status line and the detail line of the overlay.
pub fn compose_two_line_osd(status: &str, detail: &str) -> (r: String)
    ensures
        r@ == two_line_osd(status@, detail@),
{
    let s = trim(status);
    let d = trim(detail);
    let mut out = s;
    push_char(&mut out, '\n');
    out.append(d.as_str());
    assert(d@.len() == 0 ==> out@ =~= trimmed(status@) + seq!['\n']);
    out
}

} // verus!
