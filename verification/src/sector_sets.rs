//! Sector boundaries of the reference tracks: the boundary lines read from a sectors
//! shapefile, grouped by the reference track they belong to, with the file's sector ids
//! renumbered to their rank among that track's ids.
//!
//! Endpoint coordinates are carried through unchanged as the bit patterns of the file's
//! `f64` values.

use vstd::prelude::*;
use crate::text::{str_eq, trimmed, unicode_lowercase};
use crate::tools::{normalize_track_key, spaces_to_underscores};

verus! {

/// One boundary line of the sectors file: its track name, its sector id, and the first
/// and last point of its first part.
pub struct SectorRecord {
    pub track: String,
    pub sector_id: i32,
    pub ax: u64,
    pub ay: u64,
    pub bx: u64,
    pub by: u64,
}

/// A boundary line of a reference track; `sector_id` is the rank of the file's id.
#[derive(Clone, Copy)]
pub struct SectorBoundary {
    pub sector_id: i32,
    pub ax: u64,
    pub ay: u64,
    pub bx: u64,
    pub by: u64,
}

/// The sector boundaries of one reference track and the file's ids, ascending.
pub struct SectorSet {
    pub track: String,
    pub boundaries: Vec<SectorBoundary>,
    pub ring_ids: Vec<i32>,
}

/// The key a track name is looked up by.
pub open spec fn track_key(s: Seq<char>) -> Seq<char> {
    spaces_to_underscores(unicode_lowercase(trimmed(s)))
}

/// The records among the first `n` whose track has key `k`, in file order.
pub open spec fn track_records(records: Seq<SectorRecord>, k: Seq<char>, n: int) -> Seq<SectorRecord>
    decreases n,
{
    if n <= 0 {
        Seq::empty()
    } else if track_key(records[n - 1].track@) == k {
        track_records(records, k, n - 1).push(records[n - 1])
    } else {
        track_records(records, k, n - 1)
    }
}

/// The records of the reference track `name`.
pub open spec fn records_of(records: Seq<SectorRecord>, name: Seq<char>) -> Seq<SectorRecord> {
    track_records(records, track_key(name), records.len() as int)
}

/// The names among the first `n` references that have records in the file.
pub open spec fn matched_refs(refs: Seq<String>, records: Seq<SectorRecord>, n: int) -> Seq<Seq<char>>
    decreases n,
{
    if n <= 0 {
        Seq::empty()
    } else if records_of(records, refs[n - 1]@).len() > 0 {
        matched_refs(refs, records, n - 1).push(refs[n - 1]@)
    } else {
        matched_refs(refs, records, n - 1)
    }
}

/// Whether some record of `g` has sector id `x`.
pub open spec fn has_id(g: Seq<SectorRecord>, x: i32) -> bool {
    exists|t: int| 0 <= t < g.len() && #[trigger] g[t].sector_id == x
}

/// Whether `s` is strictly increasing.
pub open spec fn strictly_increasing(s: Seq<i32>) -> bool {
    forall|i: int, j: int| 0 <= i < j < s.len() ==> s[i] < s[j]
}

/// `b` is the record `rec` with its sector id replaced by the id's position in `ring`.
pub open spec fn renumbered(ring: Seq<i32>, rec: SectorRecord, b: SectorBoundary) -> bool {
    &&& exists|p: int| 0 <= p < ring.len() && ring[p] == rec.sector_id && b.sector_id == p as i32
    &&& b.ax == rec.ax && b.ay == rec.ay && b.bx == rec.bx && b.by == rec.by
}

/// `set` is the sector set of reference track `name`: its ids are the distinct ids of its
/// records, ascending, and its boundaries are its records in file order, renumbered.
pub open spec fn is_sector_set(name: Seq<char>, records: Seq<SectorRecord>, set: SectorSet) -> bool {
    let g = records_of(records, name);
    let ring = set.ring_ids@;
    &&& set.track@ == name
    &&& strictly_increasing(ring)
    &&& forall|x: i32| ring.contains(x) <==> has_id(g, x)
    &&& set.boundaries@.len() == g.len()
    &&& forall|j: int| 0 <= j < g.len() ==> renumbered(ring, g[j], #[trigger] set.boundaries@[j])
}

/// `out` holds, in reference order, the sector set of each reference track with records in
/// the file, and nothing else.
pub open spec fn is_sector_sets(refs: Seq<String>, records: Seq<SectorRecord>, out: Seq<SectorSet>) -> bool {
    let m = matched_refs(refs, records, refs.len() as int);
    &&& out.len() == m.len()
    &&& forall|i: int| 0 <= i < m.len() ==> is_sector_set(m[i], records, #[trigger] out[i])
}

proof fn lemma_track_records_prefix(records: Seq<SectorRecord>, k: Seq<char>, j: int, n: int)
    requires
        0 <= j <= n,
    ensures
        track_records(records, k, j).len() <= track_records(records, k, n).len(),
        forall|t: int|
            0 <= t < track_records(records, k, j).len() ==> #[trigger] track_records(records, k, n)[t]
                == track_records(records, k, j)[t],
    decreases n - j,
{
    if j < n {
        lemma_track_records_prefix(records, k, j, n - 1);
    }
}

/// `ring` with `x` added, kept strictly increasing.
fn insert_id(ring: &mut Vec<i32>, x: i32)
    requires
        strictly_increasing(old(ring)@),
    ensures
        strictly_increasing(final(ring)@),
        forall|y: i32| final(ring)@.contains(y) <==> (old(ring)@.contains(y) || y == x),
{
    let mut p: usize = 0;
    while p < ring.len() && ring[p] < x
        invariant
            p <= ring@.len(),
            forall|q: int| 0 <= q < p ==> ring@[q] < x,
        decreases ring@.len() - p,
    {
        p = p + 1;
    }
    if p < ring.len() && ring[p] == x {
        return;
    }
    let ghost before = ring@;
    ring.insert(p, x);
    proof {
        before.insert_ensures(p as int, x);
        assert forall|y: i32| ring@.contains(y) <==> (before.contains(y) || y == x) by {
            if ring@.contains(y) {
                let i = choose|i: int| 0 <= i < ring@.len() && ring@[i] == y;
                if i < p {
                    assert(before[i] == y);
                } else if i > p {
                    assert(before[i - 1] == y);
                }
            }
            if before.contains(y) {
                let i = choose|i: int| 0 <= i < before.len() && before[i] == y;
                if i < p {
                    assert(ring@[i] == y);
                } else {
                    assert(ring@[i + 1] == y);
                }
            }
            if y == x {
                assert(ring@[p as int] == x);
            }
        }
    }
}

/// The sector set of reference track `name`, whose key is `k`; `keys` holds the key of
/// each record.
fn sector_set_of(name: &String, k: &String, records: &Vec<SectorRecord>, keys: &Vec<String>) -> (r: SectorSet)
    requires
        k@ == track_key(name@),
        keys@.len() == records@.len(),
        forall|j: int| 0 <= j < keys@.len() ==> #[trigger] keys@[j]@ == track_key(records@[j].track@),
    ensures
        is_sector_set(name@, records@, r),
{
    let n = records.len();
    let ghost key = k@;
    let mut ring: Vec<i32> = Vec::new();
    let mut j: usize = 0;
    while j < n
        invariant
            n == records@.len(),
            keys@.len() == n,
            key == k@,
            forall|j: int| 0 <= j < keys@.len() ==> #[trigger] keys@[j]@ == track_key(records@[j].track@),
            j <= n,
            strictly_increasing(ring@),
            forall|x: i32| ring@.contains(x) <==> has_id(track_records(records@, key, j as int), x),
        decreases n - j,
    {
        let ghost g = track_records(records@, key, j as int);
        if str_eq(keys[j].as_str(), k.as_str()) {
            let id = records[j].sector_id;
            insert_id(&mut ring, id);
            let ghost g1 = track_records(records@, key, j + 1);
            assert(g1 == g.push(records@[j as int]));
            assert forall|x: i32| ring@.contains(x) <==> has_id(g1, x) by {
                if has_id(g1, x) {
                    let t = choose|t: int| 0 <= t < g1.len() && g1[t].sector_id == x;
                    if t < g.len() {
                        assert(g[t].sector_id == x);
                    }
                }
                if has_id(g, x) {
                    let t = choose|t: int| 0 <= t < g.len() && g[t].sector_id == x;
                    assert(g1[t].sector_id == x);
                }
                if x == id {
                    assert(g1[g.len() as int].sector_id == x);
                }
            }
        }
        j = j + 1;
    }
    let ghost full = track_records(records@, key, n as int);
    let mut boundaries: Vec<SectorBoundary> = Vec::new();
    j = 0;
    while j < n
        invariant
            n == records@.len(),
            keys@.len() == n,
            key == k@,
            full == track_records(records@, key, n as int),
            forall|j: int| 0 <= j < keys@.len() ==> #[trigger] keys@[j]@ == track_key(records@[j].track@),
            j <= n,
            strictly_increasing(ring@),
            forall|x: i32| ring@.contains(x) <==> has_id(full, x),
            boundaries@.len() == track_records(records@, key, j as int).len(),
            forall|t: int|
                0 <= t < boundaries@.len() ==> renumbered(
                    ring@,
                    track_records(records@, key, j as int)[t],
                    #[trigger] boundaries@[t],
                ),
        decreases n - j,
    {
        let ghost g = track_records(records@, key, j as int);
        if str_eq(keys[j].as_str(), k.as_str()) {
            let rec = &records[j];
            let ghost g1 = track_records(records@, key, j + 1);
            proof {
                assert(g1 == g.push(records@[j as int]));
                lemma_track_records_prefix(records@, key, j + 1, n as int);
                assert(full[g.len() as int] == g1[g.len() as int]);
                assert(has_id(full, rec.sector_id));
                assert(ring@.contains(rec.sector_id));
            }
            let mut p: usize = 0;
            while p < ring.len() && ring[p] != rec.sector_id
                invariant
                    p <= ring@.len(),
                    ring@.contains(rec.sector_id),
                    forall|q: int| 0 <= q < p ==> ring@[q] != rec.sector_id,
                decreases ring@.len() - p,
            {
                p = p + 1;
            }
            assert(p < ring@.len());
            boundaries.push(
                SectorBoundary { sector_id: p as i32, ax: rec.ax, ay: rec.ay, bx: rec.bx, by: rec.by },
            );
            proof {
                assert(renumbered(ring@, g1[g.len() as int], boundaries@[g.len() as int]));
            }
        }
        j = j + 1;
    }
    SectorSet { track: name.clone(), boundaries, ring_ids: ring }
}

/// The sector sets of the reference tracks `ref_names` from the records of a sectors file:
/// for each reference whose key (trimmed, lower-case, spaces as underscores) is the key of
/// some record's track, in reference order, the distinct sector ids of those records
/// ascending, and those records in file order with each id replaced by its rank.
pub fn sector_sets(ref_names: &Vec<String>, records: &Vec<SectorRecord>) -> (r: Vec<SectorSet>)
    ensures
        is_sector_sets(ref_names@, records@, r@),
{
    let mut keys: Vec<String> = Vec::new();
    let mut i: usize = 0;
    while i < records.len()
        invariant
            i <= records@.len(),
            keys@.len() == i,
            forall|j: int| 0 <= j < i ==> #[trigger] keys@[j]@ == track_key(records@[j].track@),
        decreases records@.len() - i,
    {
        keys.push(normalize_track_key(records[i].track.as_str()));
        i = i + 1;
    }
    let mut out: Vec<SectorSet> = Vec::new();
    i = 0;
    while i < ref_names.len()
        invariant
            i <= ref_names@.len(),
            keys@.len() == records@.len(),
            forall|j: int| 0 <= j < keys@.len() ==> #[trigger] keys@[j]@ == track_key(records@[j].track@),
            out@.len() == matched_refs(ref_names@, records@, i as int).len(),
            forall|t: int|
                0 <= t < out@.len() ==> is_sector_set(
                    matched_refs(ref_names@, records@, i as int)[t],
                    records@,
                    #[trigger] out@[t],
                ),
        decreases ref_names@.len() - i,
    {
        let k = normalize_track_key(ref_names[i].as_str());
        let set = sector_set_of(&ref_names[i], &k, records, &keys);
        if set.boundaries.len() > 0 {
            out.push(set);
        }
        i = i + 1;
    }
    out
}

} // verus!
