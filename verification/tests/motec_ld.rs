use acr_recorder::motec_ld::{encode_ld, ld_channels_fit, LdChannel};
use acr_recorder::motec_profile::{
    builtin_profile, checked_profile_id, default_profiles_dir, profile_from_specs,
    resample_indices, write_ld, write_ld_with_graphics, BuiltinProfile, ChannelSource,
    ChannelSpec, MotecProfile, ProfileChannel,
};

fn le32(b: &[u8], pos: usize) -> u32 {
    u32::from_le_bytes([b[pos], b[pos + 1], b[pos + 2], b[pos + 3]])
}

fn le16(b: &[u8], pos: usize) -> u16 {
    u16::from_le_bytes([b[pos], b[pos + 1]])
}

fn field(b: &[u8], pos: usize, len: usize) -> String {
    let raw = &b[pos..pos + len];
    let end = raw.iter().position(|&c| c == 0).unwrap_or(len);
    String::from_utf8_lossy(&raw[..end]).into_owned()
}

fn channel(name: &str, unit: &str, values: &[f32]) -> LdChannel {
    LdChannel {
        name: name.into(),
        unit: unit.into(),
        samples: values.iter().map(|v| v.to_bits()).collect(),
    }
}

#[test]
fn ld_layout_reads_back() {
    let chans = vec![
        channel("Speed", "km/h", &[1.0, 2.5, -3.0]),
        channel("Ground Speed Long Name", "m/s", &[]),
        channel("RPM", "rpm", &[7000.0]),
    ];
    assert!(ld_channels_fit(&chans));
    // 2021-03-04 05:06:07 UTC
    let now = 1614834367u64;
    let f = encode_ld(&chans, 333, "rally", "stage 1", now);
    let n = 3u32;
    let data_ptr = 2916 + 124 * n;
    assert_eq!(f.len() as u32, data_ptr + 4 * 4);
    assert_eq!(le32(&f, 0), 0x40);
    assert_eq!(le32(&f, 8), 2916);
    assert_eq!(le32(&f, 12), data_ptr);
    assert_eq!(le32(&f, 36), 1762);
    assert_eq!(le32(&f, 86), n);
    assert_eq!(field(&f, 74, 8), "ADL");
    assert_eq!(field(&f, 94, 16), "03/05/2020");
    assert_eq!(field(&f, 126, 16), "05:06:07");
    assert_eq!(field(&f, 158, 64), "ACR");
    assert_eq!(field(&f, 222, 64), "AC Rally");
    assert_eq!(field(&f, 1572, 64), "acr_recorder export profile=rally");
    assert_eq!(field(&f, 1762, 64), "ACR Session");
    assert_eq!(field(&f, 1762 + 128, 1024), "acr_recorder: stage 1");
    // channel records
    let m0 = 2916usize;
    let m1 = m0 + 124;
    let m2 = m1 + 124;
    assert_eq!(le32(&f, m0), 0);
    assert_eq!(le32(&f, m0 + 4), m1 as u32);
    assert_eq!(le32(&f, m1), m0 as u32);
    assert_eq!(le32(&f, m1 + 4), m2 as u32);
    assert_eq!(le32(&f, m2 + 4), 0);
    assert_eq!(le32(&f, m0 + 8), data_ptr);
    assert_eq!(le32(&f, m0 + 12), 3);
    assert_eq!(le32(&f, m1 + 8), data_ptr + 12);
    assert_eq!(le32(&f, m1 + 12), 0);
    assert_eq!(le32(&f, m2 + 8), data_ptr + 12);
    assert_eq!(le16(&f, m0 + 16), 0x2ee1);
    assert_eq!(le16(&f, m2 + 16), 0x2ee3);
    assert_eq!(le16(&f, m0 + 22), 333);
    assert_eq!(field(&f, m1 + 32, 32), "Ground Speed Long Name");
    assert_eq!(field(&f, m1 + 64, 8), "Ground S");
    assert_eq!(field(&f, m1 + 72, 12), "m/s");
    // samples
    let d = data_ptr as usize;
    assert_eq!(f32::from_bits(le32(&f, d)), 1.0);
    assert_eq!(f32::from_bits(le32(&f, d + 4)), 2.5);
    assert_eq!(f32::from_bits(le32(&f, d + 8)), -3.0);
    assert_eq!(f32::from_bits(le32(&f, d + 12)), 7000.0);
}

#[test]
fn ld_event_comment_without_description_and_capped_rate() {
    let chans = vec![channel("T", "s", &[0.0])];
    let f = encode_ld(&chans, 100_000, "rbr", "", 0);
    assert_eq!(field(&f, 1762 + 128, 1024), "acr_recorder export");
    assert_eq!(field(&f, 94, 16), "02/03/1969");
    assert_eq!(le16(&f, 2916 + 22), u16::MAX);
}

fn profile(graphics_only_second: bool) -> MotecProfile {
    MotecProfile {
        id: "rally".into(),
        description: "Rally".into(),
        channels: vec![
            ProfileChannel {
                name: "Time".into(),
                unit: "s".into(),
                source: ChannelSource::Time,
                scale_bits: 1.0f32.to_bits(),
                offset_bits: 0.0f32.to_bits(),
                graphics_only: false,
            },
            ProfileChannel {
                name: "Pos X".into(),
                unit: "m".into(),
                source: ChannelSource::GraphicsPosX,
                scale_bits: 1.0f32.to_bits(),
                offset_bits: 0.0f32.to_bits(),
                graphics_only: graphics_only_second,
            },
        ],
    }
}

#[test]
fn write_ld_skips_graphics_channels_without_graphics() {
    let p = profile(true);
    let samples = vec![vec![0.0f32.to_bits(), 0.5f32.to_bits()], vec![]];
    let without = write_ld(&p, &samples, 333, 0).unwrap();
    assert_eq!(le32(&without, 86), 1);
    let with = write_ld_with_graphics(&p, &samples, 333, true, 0).unwrap();
    assert_eq!(le32(&with, 86), 2);
    let only_graphics = MotecProfile {
        id: "gfx".into(),
        description: String::new(),
        channels: vec![profile(true).channels.remove(1)],
    };
    let err = write_ld(&only_graphics, &vec![vec![]], 333, 0).unwrap_err();
    assert_eq!(err, "MoTeC profile 'gfx' produced no channels");
}

#[test]
fn channel_sources_parse_by_name() {
    assert_eq!(ChannelSource::parse("time"), Ok(ChannelSource::Time));
    assert_eq!(ChannelSource::parse("speed_kmh"), Ok(ChannelSource::SpeedKmh));
    assert_eq!(ChannelSource::parse("packet_id"), Ok(ChannelSource::PacketId));
    assert_eq!(
        ChannelSource::parse("tyre_contact_heading_z_rr"),
        Ok(ChannelSource::TyreContactHeadingZRr)
    );
    assert_eq!(
        ChannelSource::parse("Speed_kmh"),
        Err("unknown MoTeC channel source 'Speed_kmh'".to_string())
    );
}

fn spec(name: &str, source: &str, graphics: bool) -> ChannelSpec {
    ChannelSpec {
        name: name.into(),
        unit: "u".into(),
        source: source.into(),
        scale_bits: 2.0f32.to_bits(),
        offset_bits: 0.5f32.to_bits(),
        graphics,
    }
}

#[test]
fn profile_from_specs_checks_sources() {
    let p = profile_from_specs("all", "All data".into(), &vec![spec("Speed", "speed_kmh", false), spec("X", "graphics_pos_x", true)]).unwrap();
    assert_eq!(p.id, "all");
    assert_eq!(p.description, "All data");
    assert_eq!(p.channels.len(), 2);
    assert_eq!(p.channels[0].source, ChannelSource::SpeedKmh);
    assert!(p.channels[1].graphics_only);
    assert_eq!(f32::from_bits(p.channels[0].scale_bits), 2.0);
    let err = profile_from_specs("x", String::new(), &vec![spec("a", "rpm", false), spec("b", "warp", false), spec("c", "nope", false)]);
    assert_eq!(err.err(), Some("unknown MoTeC channel source 'warp'".to_string()));
    let err = profile_from_specs("empty", String::new(), &vec![]);
    assert_eq!(err.err(), Some("profile 'empty' has no [[channels]]".to_string()));
}

#[test]
fn profile_ids_are_trimmed() {
    assert_eq!(checked_profile_id("  rally\t"), Ok("rally".to_string()));
    assert_eq!(checked_profile_id(" \n "), Err("MoTeC profile name is empty".to_string()));
}

#[test]
fn resampling_stretches_graphics_over_physics() {
    assert_eq!(resample_indices(3, 5), vec![0, 0, 1, 1, 2]);
    assert_eq!(resample_indices(5, 3), vec![0, 2, 4]);
    assert_eq!(resample_indices(1, 4), vec![0, 0, 0, 0]);
    assert_eq!(resample_indices(7, 1), vec![0]);
    assert_eq!(resample_indices(0, 4), Vec::<usize>::new());
    assert_eq!(resample_indices(4, 0), Vec::<usize>::new());
}

#[test]
fn builtin_profiles_by_name() {
    assert!(matches!(builtin_profile("rbr"), Ok(BuiltinProfile::Rbr)));
    assert!(matches!(builtin_profile("rally"), Ok(BuiltinProfile::Rally)));
    assert!(matches!(builtin_profile("all_data"), Ok(BuiltinProfile::AllData)));
    match builtin_profile("drift") {
        Err(m) => assert_eq!(
            m,
            "MoTeC profile 'drift' not found in motec_profiles/ and no built-in profile"
        ),
        Ok(_) => panic!("only shipped profiles are built in"),
    }
    assert!(builtin_profile("Rally").is_err());
}

#[test]
fn blank_profiles_dir_setting_means_none() {
    assert_eq!(default_profiles_dir(""), None);
    assert_eq!(default_profiles_dir("  \t"), None);
    assert_eq!(default_profiles_dir(" profiles "), Some(" profiles ".to_string()));
}

#[test]
fn write_ld_is_the_graphics_writer_without_graphics() {
    let p = profile(true);
    let samples = vec![vec![0.0f32.to_bits(), 0.5f32.to_bits()], vec![]];
    assert_eq!(write_ld(&p, &samples, 333, 7), write_ld_with_graphics(&p, &samples, 333, false, 7));
}
