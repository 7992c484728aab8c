use acr_recorder::course_load::{
    course_from_features, pick_stage, stage_anchor, PacenoteFeature, StageHit,
};
use acr_recorder::pacenote_course::GeoJsonAtom;

fn feature(kind: &str, index: usize, notes: &[&str], coords: usize) -> PacenoteFeature {
    PacenoteFeature {
        kind: kind.to_string(),
        stage: String::new(),
        reference_track: String::new(),
        note_index: index,
        notes: notes.iter().map(|s| s.to_string()).collect(),
        notes_text: String::new(),
        link_to_next: false,
        atoms: Vec::new(),
        turn_severity_min: None,
        coordinate_count: coords,
    }
}

#[test]
fn course_orders_callouts_by_index_and_keeps_file_order_on_ties() {
    let mut a = feature("pacenote", 3, &["Left4"], 2);
    a.stage = "Stage A".to_string();
    let mut b = feature("pacenote", 1, &["RightHP", "Right5"], 2);
    b.reference_track = "hafren".to_string();
    let c = feature("start", 0, &[], 2);
    let d = feature("pacenote", 1, &[], 1);
    let mut e = feature("pacenote", 1, &["caution"], 3);
    e.notes_text = "over crest".to_string();
    e.atoms = vec![GeoJsonAtom { kind: "turn".to_string(), severity: Some(2), style: None }];
    let features = vec![a, b, c, d, e];
    let (course, pos) = course_from_features("x.geojson", &features).unwrap();
    assert_eq!(pos, vec![1, 4, 0]);
    let idx: Vec<usize> = course.callouts.iter().map(|c| c.index).collect();
    assert_eq!(idx, vec![1, 1, 3]);
    assert_eq!(course.stage, "Stage A");
    assert_eq!(course.reference_track, "hafren");
    assert_eq!(course.callouts[0].notes_text, "RightHP, Right5");
    assert_eq!(course.callouts[0].max_turn_severity, Some(1));
    assert_eq!(course.callouts[1].notes_text, "over crest");
    assert_eq!(course.callouts[1].max_turn_severity, Some(2));
    assert_eq!(course.callouts[2].notes, vec!["Left4".to_string()]);
    assert_eq!(course.callouts[2].max_turn_severity, Some(4));
}

#[test]
fn course_without_pacenotes_is_an_error() {
    let features = vec![feature("start", 0, &[], 2), feature("pacenote", 2, &[], 0)];
    match course_from_features("dir/stage.geojson", &features) {
        Err(e) => assert_eq!(e, "No pacenote features in dir/stage.geojson"),
        Ok(_) => panic!("a file without usable pacenotes has no course"),
    }
}

#[test]
fn stage_anchor_is_first_smallest_index() {
    let features = vec![
        feature("pacenote", 5, &[], 2),
        feature("finish", 0, &[], 2),
        feature("pacenote", 2, &[], 2),
        feature("pacenote", 2, &[], 1),
    ];
    assert_eq!(stage_anchor(&features), Some(2));
    let lacking = vec![feature("pacenote", 1, &[], 1), feature("pacenote", 4, &[], 2)];
    assert_eq!(stage_anchor(&lacking), None);
    assert_eq!(stage_anchor(&vec![feature("start", 0, &[], 2)]), None);
}

fn hit(track: &str, slug: &str, stage: &str, order: u64) -> StageHit {
    StageHit {
        reference_track: track.to_string(),
        slug: slug.to_string(),
        path: format!("{slug}.geojson"),
        stage: stage.to_string(),
        distance_order: order,
    }
}

#[test]
fn prefers_full_then_longest_stage() {
    let short = StageHit {
        slug: "sisteron_mezien".into(),
        path: "timing/pacenotes/sisteron_mezien.geojson".into(),
        reference_track: "sisteron".into(),
        stage: "Sisteron - Mézien".into(),
        distance_order: 7698.0f64.to_bits(),
    };
    let long = StageHit {
        slug: "sisteron_st_geniez".into(),
        path: "timing/pacenotes/sisteron_st_geniez.geojson".into(),
        reference_track: "sisteron".into(),
        stage: "Sisteron - St. Geniez".into(),
        distance_order: 13711.0f64.to_bits(),
    };
    let full = StageHit {
        slug: "sisteron_full".into(),
        path: "timing/pacenotes/sisteron_full.geojson".into(),
        reference_track: "sisteron".into(),
        stage: "Sisteron Full".into(),
        distance_order: 9000.0f64.to_bits(),
    };
    let picked = pick_stage(&vec![clone_hit(&short), clone_hit(&long), clone_hit(&full)]).expect("pick stage");
    assert_eq!(picked.slug, "sisteron_full");
    let picked = pick_stage(&vec![short, long]).expect("pick stage");
    assert_eq!(picked.slug, "sisteron_st_geniez");
}

fn clone_hit(h: &StageHit) -> StageHit {
    StageHit {
        reference_track: h.reference_track.clone(),
        slug: h.slug.clone(),
        path: h.path.clone(),
        stage: h.stage.clone(),
        distance_order: h.distance_order,
    }
}

#[test]
fn pick_stage_breaks_ties_by_order_then_slug() {
    let hits = vec![
        hit("hafren", "hafren_short", "Short", 900),
        hit("hafren", "hafren_full", "Hafren", 100),
        hit("hafren", "hafren_long", "Long", 950),
    ];
    let pick = pick_stage(&hits).unwrap();
    assert_eq!(pick.slug, "hafren_full");
    assert_eq!(pick.path, "hafren_full.geojson");
    let no_full = vec![hit("t", "b", "B", 5), hit("t", "a", "A", 7), hit("t", "c", "C", 7)];
    assert_eq!(pick_stage(&no_full).unwrap().slug, "c");
}

#[test]
fn pick_stage_needs_one_reference_track() {
    assert!(pick_stage(&Vec::new()).is_none());
    let mixed = vec![hit("hafren", "h", "H", 1), hit("sisteron", "s", "S", 2)];
    assert!(pick_stage(&mixed).is_none());
}
