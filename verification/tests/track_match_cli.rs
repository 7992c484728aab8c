use acr_recorder::sectors_filter_args::parse_sectors_filter_args;
use acr_recorder::track_match_args::{
    config_path_arg, scan_track_match_args, ArgsEnd, FloatSetting, TrackMatchFile,
};

fn args(list: &[&str]) -> Vec<String> {
    list.iter().map(|s| s.to_string()).collect()
}

fn no_file() -> TrackMatchFile {
    TrackMatchFile {
        refs: None,
        input: None,
        live: None,
        downsample: None,
        history_points: None,
        rate: None,
        labels: None,
        overlay_file: None,
        rtss: None,
        rtss_owner: None,
        rtss_slot: None,
        rtss_clear_all: None,
        sectors_shp: None,
        sector_track_field: None,
        sector_id_field: None,
        timing_db: None,
        sector_cooldown_ms: None,
        start_points_geojson: None,
        beep_on_split: None,
        debug_physics_1hz: None,
    }
}

fn failure(a: &[&str], file: &TrackMatchFile) -> String {
    match scan_track_match_args(&args(a), file).end {
        ArgsEnd::Failed(m) => m,
        ArgsEnd::Done => panic!("expected an error, reading ended"),
        ArgsEnd::Help => panic!("expected an error, got help"),
    }
}

#[test]
fn config_option_names_the_file() {
    assert_eq!(config_path_arg(&args(&["tm", "--live"])), Ok(None));
    assert_eq!(
        config_path_arg(&args(&["tm", "--config", "a.toml", "--config", "b.toml"])),
        Ok(Some("b.toml".to_string()))
    );
    assert_eq!(
        config_path_arg(&args(&["tm", "--refs", "x", "--config"])),
        Err("--config needs a TOML path".to_string())
    );
    // the program name is not read
    assert_eq!(config_path_arg(&args(&["--config"])), Ok(None));
}

#[test]
fn command_line_sets_and_defaults() {
    let scan = scan_track_match_args(
        &args(&[
            "tm", "--config", "x.toml", "--refs", " A.rkyv, ,B.points.shp ", "--live",
            "--downsample", "4", "--rate", "0", "--buffer", "12.5", "--rtss-slot", "+3",
            "--sector-radius", "abc", "--unknown", "--rtss",
        ]),
        &no_file(),
    );
    assert!(matches!(scan.end, ArgsEnd::Done));
    let s = &scan.settings;
    assert_eq!(s.refs, vec!["A.rkyv".to_string(), "B.points.shp".to_string()]);
    assert!(s.live);
    assert!(s.rtss);
    assert_eq!(s.downsample, 4);
    assert_eq!(s.live_rate_hz, 1);
    assert_eq!(s.rtss_slot, 3);
    assert_eq!(s.history_points, 200);
    assert_eq!(s.rtss_owner, "acr_track_match");
    assert_eq!(s.sector_track_field, "src_layer");
    assert_eq!(s.sector_id_field, "seg_id");
    assert_eq!(s.sector_cross_cooldown_ms, 500);
    assert_eq!(s.start_points_geojson, "timing/start_points.geojson");
    assert_eq!(s.input, None);
    assert_eq!(scan.measurements.len(), 2);
    assert!(scan.measurements[0].0 == FloatSetting::Buffer);
    assert_eq!(scan.measurements[0].1, "12.5");
    assert!(scan.measurements[1].0 == FloatSetting::SectorRadius);
    assert_eq!(scan.measurements[1].1, "abc");
}

#[test]
fn command_line_errors_stop_reading() {
    let f = no_file();
    assert_eq!(failure(&["tm", "--refs", "a", "--downsample", "0"], &f), "--downsample must be >= 1");
    assert_eq!(
        failure(&["tm", "--refs", "a", "--downsample", "x"], &f),
        "x".parse::<usize>().unwrap_err().to_string()
    );
    assert_eq!(
        failure(&["tm", "--sector-cooldown-ms", "-5"], &f),
        "-5".parse::<u64>().unwrap_err().to_string()
    );
    assert_eq!(
        failure(&["tm", "--rtss-slot", "4294967296"], &f),
        "4294967296".parse::<u32>().unwrap_err().to_string()
    );
    assert_eq!(failure(&["tm", "--refs", "a", "--input"], &f), "--input needs a .rkyv path");
    assert_eq!(
        failure(&["tm", "--live", "--track-switch-min-gain"], &f),
        "--track-switch-min-gain needs score delta"
    );
    assert_eq!(failure(&["tm", "--live"], &f), "Need --refs refA,refB,refC");
    assert_eq!(failure(&["tm", "--refs", " , "], &f), "Need --refs refA,refB,refC");
    assert_eq!(failure(&["tm", "--refs", "a"], &f), "Need --input <file.rkyv> for offline mode");
    let help = scan_track_match_args(&args(&["tm", "-h", "--downsample", "0"]), &f);
    assert!(matches!(help.end, ArgsEnd::Help));
}

#[test]
fn file_settings_apply_under_the_command_line() {
    let mut f = no_file();
    f.refs = Some(vec!["ref.rkyv".to_string()]);
    f.input = Some("run.rkyv".to_string());
    f.rate = Some(9);
    f.rtss_owner = Some("me".to_string());
    let scan = scan_track_match_args(&args(&["tm", "--rtss-owner", "you"]), &f);
    assert!(matches!(scan.end, ArgsEnd::Done));
    assert_eq!(scan.settings.refs, vec!["ref.rkyv".to_string()]);
    assert_eq!(scan.settings.input, Some("run.rkyv".to_string()));
    assert_eq!(scan.settings.live_rate_hz, 9);
    assert_eq!(scan.settings.rtss_owner, "you");
}

#[test]
fn sector_filter_command_line() {
    let r = parse_sectors_filter_args(&args(&[
        "sf", "--input", "in.shp", "--min-dist", "12", "--output", "out.shp", "--min-dist", "x",
        "--id-field", "sid", "--other",
    ]));
    assert_eq!(r.input, Some("in.shp".to_string()));
    assert_eq!(r.output, Some("out.shp".to_string()));
    assert_eq!(r.min_dist_texts, vec!["12".to_string(), "x".to_string()]);
    assert_eq!(r.track_field, "src_layer");
    assert_eq!(r.id_field, "sid");
    assert_eq!(r.error, None);
    assert!(!r.help);
    let r = parse_sectors_filter_args(&args(&["sf", "--output", "o.shp"]));
    assert_eq!(r.error, Some("Need --input <sectors.shp>".to_string()));
    let r = parse_sectors_filter_args(&args(&["sf", "--input", "i.shp"]));
    assert_eq!(r.error, Some("Need --output <sectors.filtered.shp>".to_string()));
    let r = parse_sectors_filter_args(&args(&["sf", "--input", "i.shp", "--track-field"]));
    assert_eq!(r.error, Some("--track-field needs name".to_string()));
    let r = parse_sectors_filter_args(&args(&["sf", "-h", "--input"]));
    assert!(r.help);
    assert_eq!(r.error, None);
}
