//! Building a pacenote course from the features of its GeoJSON file: which features
//! become callouts, what each callout says, and the order in which they are called.

use vstd::prelude::*;
use crate::pacenote_course::{
    callout_gear, chars_lt, corner_gear_severity_for_callout, lemma_text_lt_irreflexive,
    lemma_text_lt_transitive, stage_prefers_full, text_lt, GeoJsonAtom, PacenoteCallout,
    PacenoteCourse, PacenoteStagePick,
};
use crate::text::{ascii_lower_text, chars_of, contains_text, str_eq};

verus! {

/// One feature of a pacenote GeoJSON file: its properties, and how many coordinates its
/// point geometry has (the coordinates themselves stay with the caller).
pub struct PacenoteFeature {
    pub kind: String,
    pub stage: String,
    pub reference_track: String,
    pub note_index: usize,
    pub notes: Vec<String>,
    pub notes_text: String,
    pub link_to_next: bool,
    pub atoms: Vec<GeoJsonAtom>,
    pub turn_severity_min: Option<u8>,
    pub coordinate_count: usize,
}

/// Whether a feature becomes a callout: a pacenote with at least two coordinates.
pub open spec fn is_course_point(f: PacenoteFeature) -> bool {
    f.kind@ == "pacenote"@ && f.coordinate_count >= 2
}

/// The notes joined with `, `.
pub open spec fn joined_notes(notes: Seq<String>) -> Seq<char>
    decreases notes.len(),
{
    if notes.len() == 0 {
        Seq::empty()
    } else if notes.len() == 1 {
        notes[0]@
    } else {
        joined_notes(notes.drop_last()) + ", "@ + notes.last()@
    }
}

/// The spoken text of a feature: its `notes_text`, or its notes joined when that is empty.
pub open spec fn callout_text(f: PacenoteFeature) -> Seq<char> {
    if f.notes_text@.len() == 0 {
        joined_notes(f.notes@)
    } else {
        f.notes_text@
    }
}

/// Whether `c` is the callout made from feature `f`.
pub open spec fn is_callout_of(c: PacenoteCallout, f: PacenoteFeature) -> bool {
    &&& c.index == f.note_index
    &&& c.notes@ == f.notes@
    &&& c.notes_text@ == callout_text(f)
    &&& c.link_to_next == f.link_to_next
    &&& c.max_turn_severity == callout_gear(f.notes@, f.atoms@, f.turn_severity_min)
}

/// The stage name of a course from the first `n` features: the stage of the first
/// callout feature that names one, empty when none does.
pub open spec fn first_stage(fs: Seq<PacenoteFeature>, n: int) -> Seq<char>
    decreases n,
{
    if n <= 0 {
        Seq::empty()
    } else {
        let prev = first_stage(fs, n - 1);
        if prev.len() == 0 && is_course_point(fs[n - 1]) {
            fs[n - 1].stage@
        } else {
            prev
        }
    }
}

/// The reference track of a course from the first `n` features: that of the first
/// callout feature that names one, empty when none does.
pub open spec fn first_reference(fs: Seq<PacenoteFeature>, n: int) -> Seq<char>
    decreases n,
{
    if n <= 0 {
        Seq::empty()
    } else {
        let prev = first_reference(fs, n - 1);
        if prev.len() == 0 && is_course_point(fs[n - 1]) {
            fs[n - 1].reference_track@
        } else {
            prev
        }
    }
}

/// Whether the first `n` features hold a callout feature.
pub open spec fn has_course_point(fs: Seq<PacenoteFeature>, n: int) -> bool {
    exists|q: int| 0 <= q < n && #[trigger] is_course_point(fs[q])
}

/// `out` are the callouts of the callout features among the first `n` features, `pos`
/// the positions of those features, in the order of the callouts: by note index, and
/// features with equal index in file order.
pub open spec fn course_order(
    fs: Seq<PacenoteFeature>,
    n: int,
    out: Seq<PacenoteCallout>,
    pos: Seq<usize>,
) -> bool {
    &&& out.len() == pos.len()
    &&& forall|i: int| 0 <= i < pos.len() ==> #[trigger] pos[i] < n
    &&& forall|i: int| 0 <= i < pos.len() ==> is_course_point(fs[#[trigger] pos[i] as int])
    &&& forall|i: int| 0 <= i < pos.len() ==> is_callout_of(#[trigger] out[i], fs[pos[i] as int])
    &&& forall|q: int|
        0 <= q < n && #[trigger] is_course_point(fs[q]) ==> exists|i: int|
            0 <= i < pos.len() && pos[i] == q
    &&& forall|i: int, j: int|
        0 <= i < j < pos.len() ==> (#[trigger] out[i]).index < (#[trigger] out[j]).index || (
        out[i].index == out[j].index && pos[i] < pos[j])
}

/// The notes joined with `, ` (as `[String]::join` does).
fn join_notes(notes: &Vec<String>) -> (r: String)
    ensures
        r@ == joined_notes(notes@),
{
    let mut out = String::new();
    let mut i: usize = 0;
    while i < notes.len()
        invariant
            i <= notes@.len(),
            out@ == joined_notes(notes@.take(i as int)),
        decreases notes@.len() - i,
    {
        if i > 0 {
            out.append(", ");
        }
        out.append(notes[i].as_str());
        proof {
            let t = notes@.take(i as int + 1);
            assert(t.drop_last() =~= notes@.take(i as int));
            reveal_strlit(", ");
            if i == 0 {
                assert(t.len() == 1);
            }
        }
        i = i + 1;
    }
    assert(notes@.take(notes@.len() as int) =~= notes@);
    out
}

/// The callout made from a feature.
fn callout_of(f: &PacenoteFeature) -> (c: PacenoteCallout)
    ensures
        is_callout_of(c, *f),
{
    let notes_text = if f.notes_text.as_str().unicode_len() == 0 {
        join_notes(&f.notes)
    } else {
        f.notes_text.clone()
    };
    let mut notes: Vec<String> = Vec::new();
    let mut i: usize = 0;
    while i < f.notes.len()
        invariant
            i <= f.notes@.len(),
            notes@ == f.notes@.take(i as int),
        decreases f.notes@.len() - i,
    {
        notes.push(f.notes[i].clone());
        assert(notes@ =~= f.notes@.take(i as int + 1));
        i = i + 1;
    }
    assert(notes@ =~= f.notes@);
    let severity = corner_gear_severity_for_callout(
        f.notes.as_slice(),
        f.atoms.as_slice(),
        f.turn_severity_min,
    );
    PacenoteCallout {
        index: f.note_index,
        notes,
        notes_text,
        link_to_next: f.link_to_next,
        max_turn_severity: severity,
    }
}

/// The error of a file with no callout feature.
pub open spec fn no_features_text(path: Seq<char>) -> Seq<char> {
    "No pacenote features in "@ + path
}

/// The course of a pacenote file shown as `path`, from its features in file order,
/// with, for each callout, the position of the feature it was made from. Features that
/// are not pacenotes with at least two coordinates are skipped; the callouts are ordered
/// by note index, features with equal index in file order. A file without such a feature
/// is an error.
pub fn course_from_features(path: &str, features: &Vec<PacenoteFeature>) -> (r: Result<
    (PacenoteCourse, Vec<usize>),
    String,
>)
    ensures
        match r {
            Ok((course, pos)) => {
                &&& has_course_point(features@, features@.len() as int)
                &&& course_order(features@, features@.len() as int, course.callouts@, pos@)
                &&& course.stage@ == first_stage(features@, features@.len() as int)
                &&& course.reference_track@ == first_reference(
                    features@,
                    features@.len() as int,
                )
            },
            Err(e) => !has_course_point(features@, features@.len() as int) && e@
                == no_features_text(path@),
        },
{
    let mut out: Vec<PacenoteCallout> = Vec::new();
    let mut pos: Vec<usize> = Vec::new();
    let mut stage = String::new();
    let mut reference_track = String::new();
    let mut i: usize = 0;
    while i < features.len()
        invariant
            i <= features@.len(),
            course_order(features@, i as int, out@, pos@),
            stage@ == first_stage(features@, i as int),
            reference_track@ == first_reference(features@, i as int),
            has_course_point(features@, i as int) <==> out@.len() > 0,
        decreases features@.len() - i,
    {
        let f = &features[i];
        proof {
            reveal_strlit("pacenote");
        }
        if str_eq(f.kind.as_str(), "pacenote") && f.coordinate_count >= 2 {
            if stage.as_str().unicode_len() == 0 {
                stage = f.stage.clone();
            }
            if reference_track.as_str().unicode_len() == 0 {
                reference_track = f.reference_track.clone();
            }
            let c = callout_of(f);
            let mut k: usize = 0;
            while k < out.len() && out[k].index <= c.index
                invariant
                    k <= out@.len(),
                    forall|j: int| 0 <= j < k ==> (#[trigger] out@[j]).index <= c.index,
                decreases out@.len() - k,
            {
                k = k + 1;
            }
            let ghost old_out = out@;
            let ghost old_pos = pos@;
            proof {
                assert forall|j: int| k <= j < old_out.len() implies (#[trigger] old_out[j]).index
                    > c.index by {
                    if j > k {
                        assert(old_out[k as int].index <= old_out[j].index);
                    }
                }
            }
            out.insert(k, c);
            pos.insert(k, i);
            proof {
                let n = i as int + 1;
                assert(out@ == old_out.insert(k as int, c));
                assert(pos@ == old_pos.insert(k as int, i));
                assert forall|t: int| 0 <= t < pos@.len() implies pos@[t] < n && is_course_point(
                    features@[pos@[t] as int],
                ) && is_callout_of(#[trigger] out@[t], features@[pos@[t] as int]) by {
                    if t < k {
                        assert(out@[t] == old_out[t] && pos@[t] == old_pos[t]);
                    } else if t > k {
                        assert(out@[t] == old_out[t - 1] && pos@[t] == old_pos[t - 1]);
                    }
                }
                assert forall|q: int| 0 <= q < n && #[trigger] is_course_point(features@[q]) implies exists|
                    t: int,
                | 0 <= t < pos@.len() && pos@[t] == q by {
                    if q == i {
                        assert(pos@[k as int] == q);
                    } else {
                        let t = choose|t: int| 0 <= t < old_pos.len() && old_pos[t] == q;
                        if t < k {
                            assert(pos@[t] == q);
                        } else {
                            assert(pos@[t + 1] == q);
                        }
                    }
                }
                assert forall|a: int, b: int| 0 <= a < b < pos@.len() implies (#[trigger] out@[a]).index
                    < (#[trigger] out@[b]).index || (out@[a].index == out@[b].index && pos@[a]
                    < pos@[b]) by {
                    if b < k {
                        assert(out@[a] == old_out[a] && out@[b] == old_out[b]);
                    } else if b == k {
                        assert(out@[a] == old_out[a]);
                        assert(old_out[a].index <= c.index);
                        assert(old_pos[a] < i);
                    } else if a < k {
                        assert(out@[a] == old_out[a] && out@[b] == old_out[b - 1]);
                        if a < b - 1 {
                        }
                    } else if a == k {
                        assert(out@[b] == old_out[b - 1]);
                        assert(old_out[b - 1].index > c.index);
                    } else {
                        assert(out@[a] == old_out[a - 1] && out@[b] == old_out[b - 1]);
                    }
                }
                assert(has_course_point(features@, n)) by {
                    assert(is_course_point(features@[i as int]));
                }
            }
        } else {
            proof {
                let n = i as int + 1;
                assert forall|q: int| 0 <= q < n && #[trigger] is_course_point(features@[q]) implies exists|
                    t: int,
                | 0 <= t < pos@.len() && pos@[t] == q by {
                    assert(q != i);
                }
                if has_course_point(features@, n) {
                    let q = choose|q: int| 0 <= q < n && #[trigger] is_course_point(features@[q]);
                    assert(q != i);
                    assert(has_course_point(features@, i as int));
                }
            }
        }
        i = i + 1;
    }
    if out.len() == 0 {
        let mut e = String::new();
        e.append("No pacenote features in ");
        e.append(path);
        proof {
            reveal_strlit("No pacenote features in ");
        }
        return Err(e);
    }
    Ok((PacenoteCourse { stage, reference_track, callouts: out }, pos))
}

// ---------------------------------------------------------------- stage anchors

/// Whether feature `q` is the anchor of a stage among the first `n` features: a pacenote
/// whose note index is the smallest of all pacenotes, the first such in file order.
pub open spec fn is_stage_anchor(fs: Seq<PacenoteFeature>, n: int, q: int) -> bool {
    &&& 0 <= q < n
    &&& fs[q].kind@ == "pacenote"@
    &&& forall|j: int|
        0 <= j < n && (#[trigger] fs[j]).kind@ == "pacenote"@ ==> fs[q].note_index < fs[j].note_index
            || (fs[q].note_index == fs[j].note_index && q <= j)
}

/// The position of the feature a stage summary is read from: the stage's first
/// pacenote (smallest note index, the first in file order among equal ones), when that
/// feature has at least two coordinates; `None` when the file has no pacenote or its
/// first one lacks coordinates.
pub fn stage_anchor(features: &Vec<PacenoteFeature>) -> (r: Option<usize>)
    ensures
        match r {
            Some(q) => is_stage_anchor(features@, features@.len() as int, q as int)
                && features@[q as int].coordinate_count >= 2,
            None => forall|q: int|
                #![trigger features@[q]]
                is_stage_anchor(features@, features@.len() as int, q)
                    ==> features@[q].coordinate_count < 2,
        },
{
    let mut first: Option<usize> = None;
    let mut i: usize = 0;
    proof {
        reveal_strlit("pacenote");
    }
    while i < features.len()
        invariant
            i <= features@.len(),
            match first {
                Some(q) => is_stage_anchor(features@, i as int, q as int),
                None => forall|j: int|
                    0 <= j < i ==> (#[trigger] features@[j]).kind@ != "pacenote"@,
            },
        decreases features@.len() - i,
    {
        if str_eq(features[i].kind.as_str(), "pacenote") {
            match first {
                Some(q) => {
                    if features[i].note_index < features[q].note_index {
                        first = Some(i);
                    }
                },
                None => {
                    first = Some(i);
                },
            }
        }
        i = i + 1;
    }
    match first {
        Some(q) => {
            if features[q].coordinate_count >= 2 {
                Some(q)
            } else {
                proof {
                    assert forall|p: int|
                        #![trigger features@[p]]
                        is_stage_anchor(
                            features@,
                            features@.len() as int,
                            p,
                        ) implies features@[p].coordinate_count < 2 by {
                        assert(features@[q as int].kind@ == "pacenote"@);
                        assert(features@[p].kind@ == "pacenote"@);
                    }
                }
                None
            }
        },
        None => None,
    }
}

// ---------------------------------------------------------------- stage choice

/// A stage whose first anchor lies near the car: its names and file, and an integer that
/// orders stages as their pacenote distances order them.
pub struct StageHit {
    pub reference_track: String,
    pub slug: String,
    pub path: String,
    pub stage: String,
    pub distance_order: u64,
}

/// Whether a stage marks itself as the full stage.
pub open spec fn hit_is_full(h: StageHit) -> bool {
    contains_text(ascii_lower_text(h.slug@), "full"@) || contains_text(
        ascii_lower_text(h.stage@),
        "full"@,
    )
}

/// Whether stage `a` is less preferred than stage `b`: not full where `b` is full, else
/// the shorter pacenote distance, else the smaller slug.
pub open spec fn hit_lt(a: StageHit, b: StageHit) -> bool {
    (!hit_is_full(a) && hit_is_full(b)) || (hit_is_full(a) == hit_is_full(b) && (a.distance_order
        < b.distance_order || (a.distance_order == b.distance_order && text_lt(a.slug@, b.slug@))))
}

proof fn lemma_text_lt_total(a: Seq<char>, b: Seq<char>)
    ensures
        a == b || text_lt(a, b) || text_lt(b, a),
    decreases a.len(),
{
    if a.len() > 0 && b.len() > 0 && a[0] == b[0] {
        lemma_text_lt_total(a.drop_first(), b.drop_first());
        if a.drop_first() == b.drop_first() {
            assert(a =~= seq![a[0]] + a.drop_first());
            assert(b =~= seq![b[0]] + b.drop_first());
        }
    } else if a.len() == 0 && b.len() == 0 {
        assert(a =~= b);
    } else if a.len() > 0 && b.len() > 0 {
        lemma_char_code_injective(a[0], b[0]);
    }
}

proof fn lemma_char_code_injective(a: char, b: char)
    ensures
        (a as u32) == (b as u32) ==> a == b,
{
}

proof fn lemma_text_lt_asymmetric(a: Seq<char>, b: Seq<char>)
    requires
        text_lt(a, b),
    ensures
        !text_lt(b, a),
{
    if text_lt(b, a) {
        lemma_text_lt_transitive(a, b, a);
        lemma_text_lt_irreflexive(a);
    }
}

/// Preference between stages is a strict order in which stages with equal slugs, marks
/// and distances are tied.
proof fn lemma_hit_order(a: StageHit, b: StageHit, c: StageHit)
    ensures
        hit_lt(a, b) ==> !hit_lt(b, a),
        hit_lt(a, b) && hit_lt(b, c) ==> hit_lt(a, c),
        !hit_lt(a, b) && !hit_lt(b, a) ==> hit_is_full(a) == hit_is_full(b) && a.distance_order
            == b.distance_order && a.slug@ == b.slug@,
{
    lemma_text_lt_total(a.slug@, b.slug@);
    if text_lt(a.slug@, b.slug@) {
        lemma_text_lt_asymmetric(a.slug@, b.slug@);
    }
    if text_lt(a.slug@, b.slug@) && text_lt(b.slug@, c.slug@) {
        lemma_text_lt_transitive(a.slug@, b.slug@, c.slug@);
    }
    if a.slug@ == b.slug@ {
        lemma_text_lt_irreflexive(a.slug@);
    }
}

/// Whether every stage among `hits` is on one reference track.
pub open spec fn one_reference_track(hits: Seq<StageHit>) -> bool {
    forall|j: int| 0 <= j < hits.len() ==> (#[trigger] hits[j]).reference_track@ == hits[0].reference_track@
}

/// Whether `m` is the most preferred stage among `hits`, the last one among tied stages.
pub open spec fn is_preferred_hit(hits: Seq<StageHit>, m: int) -> bool {
    &&& 0 <= m < hits.len()
    &&& forall|j: int| 0 <= j < m ==> !hit_lt(hits[m], #[trigger] hits[j])
    &&& forall|j: int| m < j < hits.len() ==> hit_lt(#[trigger] hits[j], hits[m])
}

/// Whether a text holds `full` in any ASCII case.
pub open spec fn says_full(t: Seq<char>) -> bool {
    contains_text(ascii_lower_text(t), "full"@)
}

/// A full stage is never passed over: when any stage near the car has `full` in its slug
/// or its stage name (any ASCII case), so does the preferred one.
pub proof fn lemma_preferred_hit_is_full(hits: Seq<StageHit>, m: int, j: int)
    requires
        is_preferred_hit(hits, m),
        0 <= j < hits.len(),
        says_full(hits[j].slug@) || says_full(hits[j].stage@),
    ensures
        says_full(hits[m].slug@) || says_full(hits[m].stage@),
{
    if !(says_full(hits[m].slug@) || says_full(hits[m].stage@)) {
        if j < m {
            assert(!hit_lt(hits[m], hits[j]));
        } else if j > m {
            assert(hit_lt(hits[j], hits[m]));
        }
    }
}

fn hit_full(h: &StageHit) -> (r: bool)
    ensures
        r == hit_is_full(*h),
{
    stage_prefers_full(h.slug.as_str(), h.stage.as_str())
}

fn hit_less(a: &StageHit, b: &StageHit) -> (r: bool)
    ensures
        r == hit_lt(*a, *b),
{
    let fa = hit_full(a);
    let fb = hit_full(b);
    if fa != fb {
        return fb;
    }
    if a.distance_order != b.distance_order {
        return a.distance_order < b.distance_order;
    }
    let sa = chars_of(a.slug.as_str());
    let sb = chars_of(b.slug.as_str());
    chars_lt(&sa, &sb)
}

/// The stage picked among the stages near the car: none when there is none or when they
/// belong to more than one reference track; else the most preferred one (a full stage
/// first, then the longest pacenote distance, then the largest slug; the last of tied
/// stages).
pub fn pick_stage(hits: &Vec<StageHit>) -> (r: Option<PacenoteStagePick>)
    ensures
        match r {
            Some(p) => hits@.len() > 0 && one_reference_track(hits@) && exists|m: int|
                #![trigger hits@[m]]
                is_preferred_hit(hits@, m) && p.reference_track@ == hits@[m].reference_track@
                    && p.slug@ == hits@[m].slug@ && p.path@ == hits@[m].path@ && p.stage@
                    == hits@[m].stage@,
            None => hits@.len() == 0 || !one_reference_track(hits@),
        },
{
    if hits.len() == 0 {
        return None;
    }
    let mut j: usize = 1;
    while j < hits.len()
        invariant
            1 <= j <= hits@.len(),
            forall|k: int| 0 <= k < j ==> (#[trigger] hits@[k]).reference_track@ == hits@[0].reference_track@,
        decreases hits@.len() - j,
    {
        if !str_eq(hits[j].reference_track.as_str(), hits[0].reference_track.as_str()) {
            return None;
        }
        j = j + 1;
    }
    let mut best: usize = 0;
    let mut i: usize = 1;
    while i < hits.len()
        invariant
            1 <= i <= hits@.len(),
            best < i,
            forall|k: int| 0 <= k < best ==> !hit_lt(hits@[best as int], #[trigger] hits@[k]),
            forall|k: int| best < k < i ==> hit_lt(#[trigger] hits@[k], hits@[best as int]),
        decreases hits@.len() - i,
    {
        if !hit_less(&hits[i], &hits[best]) {
            proof {
                let b = best as int;
                assert forall|k: int| 0 <= k < i implies !hit_lt(hits@[i as int], #[trigger] hits@[k]) by {
                    lemma_hit_order(hits@[i as int], hits@[k], hits@[b]);
                    lemma_hit_order(hits@[k], hits@[b], hits@[i as int]);
                    lemma_hit_order(hits@[b], hits@[i as int], hits@[k]);
                    lemma_hit_order(hits@[k], hits@[i as int], hits@[b]);
                    lemma_hit_order(hits@[i as int], hits@[b], hits@[k]);
                    lemma_hit_order(hits@[b], hits@[k], hits@[i as int]);
                }
            }
            best = i;
        }
        i = i + 1;
    }
    let h = &hits[best];
    Some(
        PacenoteStagePick {
            reference_track: h.reference_track.clone(),
            slug: h.slug.clone(),
            path: h.path.clone(),
            stage: h.stage.clone(),
        },
    )
}

} // verus!
