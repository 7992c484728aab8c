use acr_recorder::pacenote_course::{
    corner_gear_severity_for_callout, corner_gear_severity_from_style,
    corner_gear_severity_from_token, driving_gear, gear_lead_steps, normalize_track_slug,
    resolve_geojson_path, stage_prefers_full, GeoJsonAtom, PacenoteCallout, PacenoteCourse,
};
use acr_recorder::pacenote_course::{
    build_ambiguous_pacenote_overlay_text, select_track_from_starts, PacenoteStagePick,
};
use std::collections::HashSet;

fn names(list: &[&str]) -> Vec<String> {
    list.iter().map(|s| s.to_string()).collect()
}

#[test]
fn resolve_geojson_prefers_track_prefix_over_unrelated_stage() {
    let entries = names(&["sisteron_mezien.geojson", "hafren_south_x.geojson"]);
    let got = resolve_geojson_path(&entries, "hafren_south", Some("sisteron_mezien"), true);
    assert_eq!(got, Some("hafren_south_x.geojson".to_string()));
}

#[test]
fn resolve_geojson_rejects_unrelated_explicit_when_no_track_file() {
    let entries = names(&["sisteron_mezien.geojson"]);
    let got = resolve_geojson_path(&entries, "hafren_south", Some("sisteron_mezien"), true);
    assert_eq!(got, None);
}

#[test]
fn resolve_geojson_explicit_fallback_when_stem_matches_track() {
    let entries = names(&["sisteron_mezien.geojson"]);
    let got = resolve_geojson_path(&entries, "sisteron", Some("sisteron_mezien"), true);
    assert_eq!(got, Some("sisteron_mezien.geojson".to_string()));
}

#[test]
fn resolve_geojson_explicit_file_without_track_prefix_match() {
    // no file starts with the track slug, but the stage file belongs to the same track
    let entries = names(&["notes.txt"]);
    let got = resolve_geojson_path(&entries, "Sisteron", Some("sisteron_mezien"), true);
    assert_eq!(got, Some("sisteron_mezien.geojson".to_string()));
    let got = resolve_geojson_path(&entries, "Sisteron", Some("sisteron_mezien"), false);
    assert_eq!(got, None);
}

#[test]
fn resolve_geojson_several_matches_prefers_stage_then_first_name() {
    let entries = names(&["sisteron_b.geojson", "sisteron_a.geojson", "sisteron_c.geojson", "x.geojson"]);
    assert_eq!(
        resolve_geojson_path(&entries, "sisteron", Some("sisteron_c"), true),
        Some("sisteron_c.geojson".to_string())
    );
    assert_eq!(
        resolve_geojson_path(&entries, "sisteron", Some("other"), true),
        Some("sisteron_a.geojson".to_string())
    );
    assert_eq!(
        resolve_geojson_path(&entries, "sisteron", None, false),
        Some("sisteron_a.geojson".to_string())
    );
    assert_eq!(resolve_geojson_path(&entries, "  -- ", None, false), None);
    // a name without stem or with another extension is no stage file
    let entries = names(&[".geojson", "sisteron.json"]);
    assert_eq!(resolve_geojson_path(&entries, "sisteron", None, false), None);
}

#[test]
fn corner_gear_severity_covers_styles_and_numbers() {
    assert_eq!(corner_gear_severity_from_token("RightHP"), Some(1));
    assert_eq!(corner_gear_severity_from_token("LeftSquare"), Some(2));
    assert_eq!(corner_gear_severity_from_token("Right3"), Some(3));
    let atoms = vec![GeoJsonAtom {
        kind: "turn".into(),
        severity: None,
        style: Some("hp".into()),
    }];
    assert_eq!(
        corner_gear_severity_for_callout(&["RightHP".into()], &atoms, None),
        Some(1)
    );
    assert_eq!(
        corner_gear_severity_for_callout(&["RightHP".into(), "Right5".into()], &[], None),
        Some(1)
    );
}

#[test]
fn corner_gear_styles_and_tokens_edge_cases() {
    assert_eq!(corner_gear_severity_from_style("KINK"), Some(5));
    assert_eq!(corner_gear_severity_from_style("ChicaneEntry"), Some(2));
    assert_eq!(corner_gear_severity_from_style("OpenHp"), Some(2));
    assert_eq!(corner_gear_severity_from_style("flat"), Some(3));
    assert_eq!(corner_gear_severity_from_style("long"), None);
    assert_eq!(corner_gear_severity_from_token("Left"), None);
    assert_eq!(corner_gear_severity_from_token("Straight"), None);
    assert_eq!(corner_gear_severity_from_token("left6"), Some(6));
    assert_eq!(corner_gear_severity_from_token("RIGHTkink"), Some(5));
    let atoms = vec![
        GeoJsonAtom { kind: "crest".into(), severity: Some(1), style: None },
        GeoJsonAtom { kind: "turn".into(), severity: Some(4), style: Some("hp".into()) },
    ];
    // the minimum turn severity takes part, non-turn atoms do not
    assert_eq!(corner_gear_severity_for_callout(&["Right5".into()], &atoms, Some(6)), Some(4));
    assert_eq!(corner_gear_severity_for_callout(&[], &[], Some(2)), Some(2));
    assert_eq!(corner_gear_severity_for_callout(&["Caution".into()], &[], None), None);
}

#[test]
fn gear_extra_lead_matches_corner_gap() {
    // the extra lead is one gear step per gear between the driving and the corner gear:
    // 0.9 s at 300 ms per step, 10 s at 2000 ms per step, nothing in the corner's gear
    assert_eq!(gear_lead_steps(5, 2, 6) as u64 * 300, 900);
    assert_eq!(gear_lead_steps(6, 1, 6) as u64 * 2000, 10_000);
    assert_eq!(gear_lead_steps(1, 1, 6), 0);
}

#[test]
fn gear_lead_steps_capped_at_reference_gear() {
    assert_eq!(gear_lead_steps(6, 2, 4), 2);
    assert_eq!(gear_lead_steps(6, 5, 4), 0);
    assert_eq!(gear_lead_steps(2, 3, 6), 0);
}

#[test]
fn driving_gear_maps_game_gears() {
    assert_eq!(driving_gear(0), None);
    assert_eq!(driving_gear(-1), None);
    assert_eq!(driving_gear(1), Some(1));
    assert_eq!(driving_gear(2), Some(1));
    assert_eq!(driving_gear(4), Some(3));
    assert_eq!(driving_gear(9), Some(6));
}

#[test]
fn track_slug_examples_and_idempotence() {
    assert_eq!(normalize_track_slug("Sisteron - Mézien"), "sisteron_m_zien");
    assert_eq!(normalize_track_slug("  Hafren South!! "), "hafren_south");
    assert_eq!(normalize_track_slug("___"), "");
    let once = normalize_track_slug("Col de Turini (2)");
    assert_eq!(once, "col_de_turini_2");
    assert_eq!(normalize_track_slug(&once), once);
}

#[test]
fn stage_prefers_full_checks_slug_and_name() {
    assert!(stage_prefers_full("sisteron_full", "Sisteron"));
    assert!(stage_prefers_full("sisteron", "Sisteron FULL"));
    assert!(!stage_prefers_full("sisteron_mezien", "Sisteron - Mézien"));
}

fn callout(index: usize, link: bool, severity: Option<u8>) -> PacenoteCallout {
    PacenoteCallout {
        index,
        notes: vec![],
        notes_text: String::new(),
        link_to_next: link,
        max_turn_severity: severity,
    }
}

#[test]
fn course_chains_and_next_callout() {
    let course = PacenoteCourse {
        stage: "test".into(),
        reference_track: "test".into(),
        callouts: vec![
            callout(0, true, Some(4)),
            callout(1, true, None),
            callout(2, false, Some(2)),
            callout(3, true, Some(5)),
        ],
    };
    assert_eq!(course.callout_chain_end_pos(0), 2);
    assert_eq!(course.callout_chain_end_pos(2), 2);
    assert_eq!(course.callout_chain_end_pos(3), 3);
    assert_eq!(course.callout_chain_urgency(0, 2), 2);
    assert_eq!(course.callout_chain_urgency(1, 1), 6);
    assert_eq!(course.callout_chain_urgency(3, 3), 5);
    let mut triggered = HashSet::new();
    assert_eq!(course.next_callout_pos(&triggered), Some(0));
    triggered.insert(0);
    triggered.insert(1);
    assert_eq!(course.next_callout_pos(&triggered), Some(2));
    triggered.insert(2);
    triggered.insert(3);
    assert_eq!(course.next_callout_pos(&triggered), None);
}

#[test]
fn chain_tokens_follow_links() {
    let mut a = callout(4, true, None);
    a.notes = vec!["Left3".to_string(), "into".to_string()];
    let mut b = callout(5, false, None);
    b.notes = vec!["Right2".to_string()];
    let mut c = callout(6, true, None);
    c.notes = vec!["caution".to_string()];
    let course = PacenoteCourse {
        stage: "s".into(),
        reference_track: "t".into(),
        callouts: vec![a, b, c],
    };
    let (tokens, indices) = course.collect_callout_tokens(0);
    assert_eq!(tokens, vec!["Left3", "into", "Right2"]);
    assert_eq!(indices, vec![4, 5]);
    assert_eq!(indices.len(), course.callout_chain_end_pos(0) + 1);
    let (tokens, indices) = course.collect_callout_tokens(2);
    assert_eq!(tokens, vec!["caution"]);
    assert_eq!(indices, vec![6]);
}

#[test]
fn picker_overlay_marks_the_chosen_stage() {
    let pick = |slug: &str, track: &str| PacenoteStagePick {
        reference_track: track.to_string(),
        slug: slug.to_string(),
        path: format!("{slug}.geojson"),
        stage: String::new(),
    };
    let text = build_ambiguous_pacenote_overlay_text(
        &vec![pick("hafren_south", "hafren"), pick("sisteron_full", "sisteron")],
        1,
    );
    assert_eq!(
        text,
        "pacenote pick: Ctrl+Up/Down/Left/Right  Ctrl+Enter\n  hafren_south  (hafren)\n> sisteron_full  (sisteron)"
    );
    assert_eq!(
        build_ambiguous_pacenote_overlay_text(&Vec::new(), 0),
        "pacenote pick: Ctrl+Up/Down/Left/Right  Ctrl+Enter"
    );
}

#[test]
fn one_track_near_the_start() {
    let tracks = names(&["hafren", "sisteron", "monte"]);
    assert_eq!(
        select_track_from_starts(&tracks, &vec![false, true, false]),
        Some("sisteron".to_string())
    );
    assert_eq!(select_track_from_starts(&tracks, &vec![true, true, false]), None);
    assert_eq!(select_track_from_starts(&tracks, &vec![false, false, false]), None);
}

#[test]
fn slug_keeps_exactly_the_ascii_letters_and_digits() {
    let name = "  Hafren South (Rév. 2)!! ";
    let slug = normalize_track_slug(name);
    assert_eq!(slug, "hafren_south_r_v_2");
    let letters: String = name.chars().filter(|c| c.is_ascii_alphanumeric()).map(|c| c.to_ascii_lowercase()).collect();
    assert_eq!(slug.replace('_', ""), letters);
}

#[test]
fn resolve_geojson_fallback_slugs_the_stem_of_the_stage_file() {
    let entries = names(&["sisteron_mezien.geojson"]);
    assert_eq!(resolve_geojson_path(&entries, "hafren_south", Some(""), true), None);
    assert_eq!(resolve_geojson_path(&entries, "hafren", Some("hafren/x"), true), None);
    assert_eq!(
        resolve_geojson_path(&entries, "hafren_south", Some("stages/hafren_south_x"), true),
        Some("stages/hafren_south_x.geojson".to_string())
    );
    assert_eq!(
        resolve_geojson_path(&entries, "geojson", Some(""), true),
        Some(".geojson".to_string())
    );
}
