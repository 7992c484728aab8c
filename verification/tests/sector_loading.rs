use acr_recorder::sector_sets::{sector_sets, SectorRecord};

fn rec(track: &str, id: i32, ax: f64, ay: f64, bx: f64, by: f64) -> SectorRecord {
    SectorRecord {
        track: track.to_string(),
        sector_id: id,
        ax: ax.to_bits(),
        ay: ay.to_bits(),
        bx: bx.to_bits(),
        by: by.to_bits(),
    }
}

fn names(list: &[&str]) -> Vec<String> {
    list.iter().map(|s| s.to_string()).collect()
}

#[test]
fn sector_ids_are_ranked_per_track() {
    let records = vec![
        rec("Hafren South", 30, 1.0, 2.0, 3.0, 4.0),
        rec("other", 5, 0.0, 0.0, 1.0, 1.0),
        rec(" hafren south ", 10, 5.0, 6.0, 7.0, 8.0),
        rec("HAFREN SOUTH", 30, 9.0, 9.5, 10.0, 10.5),
        rec("hafren_south", 20, -1.0, -2.0, -3.0, -4.0),
    ];
    let sets = sector_sets(&names(&["hafren_south"]), &records);
    assert_eq!(sets.len(), 1);
    let set = &sets[0];
    assert_eq!(set.track, "hafren_south");
    assert_eq!(set.ring_ids, vec![10, 20, 30]);
    let ids: Vec<i32> = set.boundaries.iter().map(|b| b.sector_id).collect();
    assert_eq!(ids, vec![2, 0, 2, 1]);
    assert_eq!(f64::from_bits(set.boundaries[0].ax), 1.0);
    assert_eq!(f64::from_bits(set.boundaries[1].by), 8.0);
    assert_eq!(f64::from_bits(set.boundaries[3].bx), -3.0);
}

#[test]
fn references_without_records_get_no_set() {
    let records = vec![rec("sweet lamb", 1, 0.0, 0.0, 1.0, 1.0), rec("sweet lamb", -4, 0.0, 0.0, 1.0, 1.0)];
    let sets = sector_sets(&names(&["hafren", "Sweet Lamb"]), &records);
    assert_eq!(sets.len(), 1);
    assert_eq!(sets[0].track, "Sweet Lamb");
    assert_eq!(sets[0].ring_ids, vec![-4, 1]);
    let ids: Vec<i32> = sets[0].boundaries.iter().map(|b| b.sector_id).collect();
    assert_eq!(ids, vec![1, 0]);
}

#[test]
fn no_records_no_sets() {
    assert!(sector_sets(&names(&["hafren"]), &Vec::new()).is_empty());
}
