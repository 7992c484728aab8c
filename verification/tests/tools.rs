use acr_recorder::motec_live::{
    after_empty_poll, ld_file_name, parse_out_dir, replaces_statics, statics_have_content, Options,
};
use acr_recorder::overlay::{compose_two_line_osd, sanitize_for_rtss};
use acr_recorder::recording_position::duration_fields;
use acr_recorder::split_beep::{
    beep_count, default_faster_ms, default_gap_ms, default_mode, default_slower_ms, uses_wav,
};
use acr_recorder::tools::{
    arg_value, file_stem, graphics_sidecar_name, html_escape, ms_to_str, normalize_track_key,
};

fn args(list: &[&str]) -> Vec<String> {
    list.iter().map(|s| s.to_string()).collect()
}

#[test]
fn out_dir_option() {
    assert_eq!(parse_out_dir(&args(&["acr_motec", "--out", "d"])), Some("d".to_string()));
    assert_eq!(parse_out_dir(&args(&["--out=x/y", "--out", "z"])), Some("x/y".to_string()));
    assert_eq!(parse_out_dir(&args(&["a", "--out"])), None);
    assert_eq!(parse_out_dir(&args(&["a"])), None);
    let o = Options { out_dir: parse_out_dir(&args(&["--out=o"])) };
    assert_eq!(o.out_dir.as_deref(), Some("o"));
}

#[test]
fn option_values() {
    let a = args(&["--db", "x.db", "--session", "3", "--db"]);
    assert_eq!(arg_value(&a, "--db"), Some("x.db".to_string()));
    assert_eq!(arg_value(&a, "--session"), Some("3".to_string()));
    assert_eq!(arg_value(&a, "3"), Some("--db".to_string()));
    assert_eq!(arg_value(&a, "--missing"), None);
    assert_eq!(arg_value(&args(&["--db"]), "--db"), None);
}

#[test]
fn html_and_times() {
    assert_eq!(html_escape("a<b & \"c\">"), "a&lt;b &amp; &quot;c&quot;&gt;");
    assert_eq!(ms_to_str(0), "-");
    assert_eq!(ms_to_str(-5), "-");
    assert_eq!(ms_to_str(61234), "1:01.234");
    assert_eq!(ms_to_str(59999), "0:59.999");
    assert_eq!(ms_to_str(600000), "10:00.000");
    assert_eq!(ms_to_str(7), "0:00.007");
}

#[test]
fn track_keys_and_file_names() {
    assert_eq!(normalize_track_key("  Hafren South  "), "hafren_south");
    assert_eq!(normalize_track_key("ÉTÉ Stage"), "été_stage");
    assert_eq!(file_stem("acc_physics_1.rkyv"), "acc_physics_1");
    assert_eq!(file_stem("a.b.c"), "a.b");
    assert_eq!(file_stem(".hidden"), ".hidden");
    assert_eq!(file_stem("plain"), "plain");
    assert_eq!(file_stem(".."), "..");
    assert_eq!(graphics_sidecar_name("acc_physics_1.rkyv"), "acc_physics_1.graphics.rkyv");
}

#[test]
fn rtss_text_is_sanitized() {
    assert_eq!(sanitize_for_rtss("a|b [c]\td", 4), "a b (c) d\n");
    assert_eq!(sanitize_for_rtss("one\r\ntwo\nthree\nfour", 3), "one\n\ntwo");
    assert_eq!(sanitize_for_rtss("", 0), "\n");
    assert_eq!(sanitize_for_rtss("x\u{1}é  y  ", 8), "x?? y\n");
    let many = "1\n2\n3\n4\n5\n6\n7\n8\n9\n10\n11\n12\n13\n14\n15\n16\n17\n18\n19\n20\n21\n22\n23\n24\n25\n26\n27\n28\n29\n30\n31\n32\n33\n34";
    assert_eq!(sanitize_for_rtss(many, 100).lines().count(), 32);
    assert_eq!(compose_two_line_osd("  Track: X ", "  "), "Track: X\n");
    assert_eq!(compose_two_line_osd("S", " d "), "S\nd");
}

#[test]
fn beep_settings() {
    assert_eq!(default_mode(), "sine");
    assert_eq!(default_faster_ms(), 45);
    assert_eq!(default_slower_ms(), 140);
    assert_eq!(default_gap_ms(), 200);
    assert_eq!(beep_count(0), 1);
    assert_eq!(beep_count(250), 1);
    assert_eq!(beep_count(251), 2);
    assert_eq!(beep_count(500), 2);
    assert_eq!(beep_count(501), 3);
    assert!(uses_wav("WAV"));
    assert!(!uses_wav("sine"));
}

#[test]
fn live_capture_decisions() {
    assert_eq!(after_empty_poll(0), (1, false));
    assert_eq!(after_empty_poll(19), (20, true));
    assert_eq!(after_empty_poll(u32::MAX), (u32::MAX, true));
    assert!(replaces_statics(false, false, true, false));
    assert!(!replaces_statics(false, false, false, false));
    assert!(replaces_statics(true, true, false, true));
    assert!(!replaces_statics(true, false, true, true));
}

#[test]
fn duration_text_fields() {
    assert_eq!(duration_fields(" 1:02.5 ").unwrap(), vec!["1", "02.5"]);
    assert_eq!(duration_fields("1.02.500").unwrap(), vec!["1", "02.500"]);
    assert_eq!(duration_fields("1:02:03.5").unwrap(), vec!["1", "02", "03.5"]);
    assert_eq!(duration_fields("62.5").unwrap_err(), "expected M:SS.mmm, got 62.5");
    assert_eq!(duration_fields("1:2:3:4").unwrap_err(), "expected M:SS.mmm, got 1:2:3:4");
}

#[test]
fn statics_content_and_ld_names() {
    assert!(!statics_have_content("", " ", "", "\t", "", 0, false));
    assert!(statics_have_content(" ", "porsche_991", "", "", "", 0, false));
    assert!(statics_have_content("", "", "", "", "", 8000, false));
    assert!(statics_have_content("", "", "", "", "", 0, true));
    assert!(!statics_have_content("", "", "", "", "", -1, false));
    assert_eq!(ld_file_name(1614834367), "acr_motec_1614834367.ld");
    assert_eq!(ld_file_name(0), "acr_motec_0.ld");
}

#[test]
fn track_key_trims_unicode_whitespace() {
    assert_eq!(acr_recorder::tools::normalize_track_key("\u{3000}Hafren South\u{a0}\u{85}"), "hafren_south");
    assert_eq!(acr_recorder::tools::normalize_track_key("\u{200b}x"), "\u{200b}x");
    assert_eq!(acr_recorder::tools::track_key_from_lowercase("sweet lamb  "), "sweet_lamb__");
}
