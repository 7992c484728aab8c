//! The command line of the track matcher: which option sets what, the integers it reads,
//! the values it checks, and where reading stops.
//!
//! Options that take a measurement (metres, seconds, ratios) are handed back as text in
//! the order they appear; the caller reads them as numbers.

use vstd::prelude::*;
use crate::recording_position::{split_chars, split_text};
use crate::text::{chars_of, is_ascii_digit, str_eq, trim, trimmed};

verus! {

// ---------------------------------------------------------------- integers

/// The digits of an unsigned integer text: the text without a leading `+`.
pub open spec fn unsigned_digits(t: Seq<char>) -> Seq<char> {
    if t.len() > 0 && t[0] == '+' {
        t.drop_first()
    } else {
        t
    }
}

/// Whether `t` is an optional `+` followed by one or more ASCII digits.
pub open spec fn unsigned_text(t: Seq<char>) -> bool {
    let d = unsigned_digits(t);
    d.len() > 0 && forall|i: int| 0 <= i < d.len() ==> is_ascii_digit(#[trigger] d[i])
}

/// The value of a string of decimal digits.
pub open spec fn digits_value(d: Seq<char>) -> nat
    decreases d.len(),
{
    if d.len() == 0 {
        0
    } else {
        digits_value(d.drop_last()) * 10 + ((d.last() as int - 48) as nat)
    }
}

/// The message of `str::parse::<usize>` for a text it refuses.
pub uninterp spec fn usize_parse_error(text: Seq<char>) -> Seq<char>;

/// The message of `str::parse::<u64>` for a text it refuses.
pub uninterp spec fn u64_parse_error(text: Seq<char>) -> Seq<char>;

/// The message of `str::parse::<u32>` for a text it refuses.
pub uninterp spec fn u32_parse_error(text: Seq<char>) -> Seq<char>;

/// The outcome of reading `t` as a `usize`.
pub open spec fn parsed_usize(t: Seq<char>) -> Result<usize, Seq<char>> {
    if unsigned_text(t) && digits_value(unsigned_digits(t)) <= usize::MAX {
        Ok(digits_value(unsigned_digits(t)) as usize)
    } else {
        Err(usize_parse_error(t))
    }
}

/// The outcome of reading `t` as a `u64`.
pub open spec fn parsed_u64(t: Seq<char>) -> Result<u64, Seq<char>> {
    if unsigned_text(t) && digits_value(unsigned_digits(t)) <= u64::MAX {
        Ok(digits_value(unsigned_digits(t)) as u64)
    } else {
        Err(u64_parse_error(t))
    }
}

/// The outcome of reading `t` as a `u32`.
pub open spec fn parsed_u32(t: Seq<char>) -> Result<u32, Seq<char>> {
    if unsigned_text(t) && digits_value(unsigned_digits(t)) <= u32::MAX {
        Ok(digits_value(unsigned_digits(t)) as u32)
    } else {
        Err(u32_parse_error(t))
    }
}

/// `str::parse::<usize>`: as its documentation states, the text must be an optional `+`
/// followed by decimal digits whose value fits; the result is that value. The text of
/// the error is named, not stated.
#[verifier::external_body]
fn parse_usize(s: &str) -> (r: Result<usize, String>)
    ensures
        r is Ok <==> (unsigned_text(s@) && digits_value(unsigned_digits(s@)) <= usize::MAX),
        r matches Ok(v) ==> v == digits_value(unsigned_digits(s@)),
        r matches Err(e) ==> e@ == usize_parse_error(s@),
{
    s.parse::<usize>().map_err(|e| e.to_string())
}

/// `str::parse::<u64>`, as [`parse_usize`] for `u64`.
#[verifier::external_body]
fn parse_u64(s: &str) -> (r: Result<u64, String>)
    ensures
        r is Ok <==> (unsigned_text(s@) && digits_value(unsigned_digits(s@)) <= u64::MAX),
        r matches Ok(v) ==> v == digits_value(unsigned_digits(s@)),
        r matches Err(e) ==> e@ == u64_parse_error(s@),
{
    s.parse::<u64>().map_err(|e| e.to_string())
}

/// `str::parse::<u32>`, as [`parse_usize`] for `u32`.
#[verifier::external_body]
fn parse_u32(s: &str) -> (r: Result<u32, String>)
    ensures
        r is Ok <==> (unsigned_text(s@) && digits_value(unsigned_digits(s@)) <= u32::MAX),
        r matches Ok(v) ==> v == digits_value(unsigned_digits(s@)),
        r matches Err(e) ==> e@ == u32_parse_error(s@),
{
    s.parse::<u32>().map_err(|e| e.to_string())
}

// ---------------------------------------------------------------- options

/// The options that take a measurement.
#[derive(Clone, Copy, PartialEq, Eq, Structural)]
pub enum FloatSetting {
    Buffer,
    RequiredRatio,
    MinRefSpacing,
    SectorRadius,
    TrackKeepMaxDist,
    TrackSwitchMinGain,
    TrackLockAfterSec,
    TrackUnlockSpeedKmh,
    TrackUnlockHoldSec,
    StartPrefilterRadius,
}

/// What an argument of the command line is.
#[derive(Clone, Copy, PartialEq, Eq, Structural)]
pub enum ArgKind {
    Config,
    Refs,
    Input,
    Live,
    Downsample,
    HistoryPoints,
    Rate,
    Labels,
    OverlayFile,
    Rtss,
    RtssOwner,
    RtssSlot,
    RtssClearAll,
    SectorsShp,
    SectorTrackField,
    SectorIdField,
    TimingDb,
    SectorCooldownMs,
    StartPointsGeojson,
    BeepOnSplit,
    DebugPhysics1hz,
    Help,
    Measurement(FloatSetting),
    Other,
}

/// The kind of an argument.
pub open spec fn option_kind(a: Seq<char>) -> ArgKind {
    if a == "--config"@ {
        ArgKind::Config
    } else if a == "--refs"@ {
        ArgKind::Refs
    } else if a == "--input"@ {
        ArgKind::Input
    } else if a == "--live"@ {
        ArgKind::Live
    } else if a == "--downsample"@ {
        ArgKind::Downsample
    } else if a == "--buffer"@ {
        ArgKind::Measurement(FloatSetting::Buffer)
    } else if a == "--required-ratio"@ {
        ArgKind::Measurement(FloatSetting::RequiredRatio)
    } else if a == "--history-points"@ {
        ArgKind::HistoryPoints
    } else if a == "--rate"@ {
        ArgKind::Rate
    } else if a == "--min-ref-spacing"@ {
        ArgKind::Measurement(FloatSetting::MinRefSpacing)
    } else if a == "--labels"@ {
        ArgKind::Labels
    } else if a == "--overlay-file"@ {
        ArgKind::OverlayFile
    } else if a == "--rtss"@ {
        ArgKind::Rtss
    } else if a == "--rtss-owner"@ {
        ArgKind::RtssOwner
    } else if a == "--rtss-slot"@ {
        ArgKind::RtssSlot
    } else if a == "--rtss-clear-all"@ {
        ArgKind::RtssClearAll
    } else if a == "--sectors-shp"@ {
        ArgKind::SectorsShp
    } else if a == "--sector-track-field"@ {
        ArgKind::SectorTrackField
    } else if a == "--sector-id-field"@ {
        ArgKind::SectorIdField
    } else if a == "--timing-db"@ {
        ArgKind::TimingDb
    } else if a == "--sector-cooldown-ms"@ {
        ArgKind::SectorCooldownMs
    } else if a == "--sector-radius"@ {
        ArgKind::Measurement(FloatSetting::SectorRadius)
    } else if a == "--track-keep-max-dist"@ {
        ArgKind::Measurement(FloatSetting::TrackKeepMaxDist)
    } else if a == "--track-switch-min-gain"@ {
        ArgKind::Measurement(FloatSetting::TrackSwitchMinGain)
    } else if a == "--track-lock-after-sec"@ {
        ArgKind::Measurement(FloatSetting::TrackLockAfterSec)
    } else if a == "--track-unlock-speed-kmh"@ {
        ArgKind::Measurement(FloatSetting::TrackUnlockSpeedKmh)
    } else if a == "--track-unlock-hold-sec"@ {
        ArgKind::Measurement(FloatSetting::TrackUnlockHoldSec)
    } else if a == "--start-points-geojson"@ {
        ArgKind::StartPointsGeojson
    } else if a == "--start-prefilter-radius"@ {
        ArgKind::Measurement(FloatSetting::StartPrefilterRadius)
    } else if a == "--beep-on-split"@ {
        ArgKind::BeepOnSplit
    } else if a == "--debug-physics-1hz"@ {
        ArgKind::DebugPhysics1hz
    } else if a == "--help"@ || a == "-h"@ {
        ArgKind::Help
    } else {
        ArgKind::Other
    }
}

/// The option that sets a measurement.
pub open spec fn measurement_option(f: FloatSetting) -> Seq<char> {
    match f {
        FloatSetting::Buffer => "--buffer"@,
        FloatSetting::RequiredRatio => "--required-ratio"@,
        FloatSetting::MinRefSpacing => "--min-ref-spacing"@,
        FloatSetting::SectorRadius => "--sector-radius"@,
        FloatSetting::TrackKeepMaxDist => "--track-keep-max-dist"@,
        FloatSetting::TrackSwitchMinGain => "--track-switch-min-gain"@,
        FloatSetting::TrackLockAfterSec => "--track-lock-after-sec"@,
        FloatSetting::TrackUnlockSpeedKmh => "--track-unlock-speed-kmh"@,
        FloatSetting::TrackUnlockHoldSec => "--track-unlock-hold-sec"@,
        FloatSetting::StartPrefilterRadius => "--start-prefilter-radius"@,
    }
}

/// Each measurement option sets its own measurement: an argument is read as setting
/// measurement `f` exactly when it is the option named for `f`.
#[verifier::spinoff_prover]
#[verifier::rlimit(50)]
pub proof fn lemma_measurement_options(a: Seq<char>, f: FloatSetting)
    ensures
        option_kind(a) == ArgKind::Measurement(f) <==> a == measurement_option(f),
{
    reveal_strlit("--config");
    reveal_strlit("--refs");
    reveal_strlit("--input");
    reveal_strlit("--live");
    reveal_strlit("--downsample");
    reveal_strlit("--buffer");
    reveal_strlit("--required-ratio");
    reveal_strlit("--history-points");
    reveal_strlit("--rate");
    reveal_strlit("--min-ref-spacing");
    reveal_strlit("--labels");
    reveal_strlit("--overlay-file");
    reveal_strlit("--rtss");
    reveal_strlit("--rtss-owner");
    reveal_strlit("--rtss-slot");
    reveal_strlit("--rtss-clear-all");
    reveal_strlit("--sectors-shp");
    reveal_strlit("--sector-track-field");
    reveal_strlit("--sector-id-field");
    reveal_strlit("--timing-db");
    reveal_strlit("--sector-cooldown-ms");
    reveal_strlit("--sector-radius");
    reveal_strlit("--track-keep-max-dist");
    reveal_strlit("--track-switch-min-gain");
    reveal_strlit("--track-lock-after-sec");
    reveal_strlit("--track-unlock-speed-kmh");
    reveal_strlit("--track-unlock-hold-sec");
    reveal_strlit("--start-points-geojson");
    reveal_strlit("--start-prefilter-radius");
    reveal_strlit("--beep-on-split");
    reveal_strlit("--debug-physics-1hz");
    reveal_strlit("--help");
    reveal_strlit("-h");
    assert("--buffer"@ != "--config"@) by {
        assert("--buffer"@[2] != "--config"@[2]);
    }
    assert("--buffer"@ != "--refs"@) by {
        assert("--buffer"@.len() != "--refs"@.len());
    }
    assert("--buffer"@ != "--input"@) by {
        assert("--buffer"@.len() != "--input"@.len());
    }
    assert("--buffer"@ != "--live"@) by {
        assert("--buffer"@.len() != "--live"@.len());
    }
    assert("--buffer"@ != "--downsample"@) by {
        assert("--buffer"@.len() != "--downsample"@.len());
    }
    assert(option_kind("--buffer"@) == ArgKind::Measurement(FloatSetting::Buffer));
    assert("--required-ratio"@ != "--config"@) by {
        assert("--required-ratio"@.len() != "--config"@.len());
    }
    assert("--required-ratio"@ != "--refs"@) by {
        assert("--required-ratio"@.len() != "--refs"@.len());
    }
    assert("--required-ratio"@ != "--input"@) by {
        assert("--required-ratio"@.len() != "--input"@.len());
    }
    assert("--required-ratio"@ != "--live"@) by {
        assert("--required-ratio"@.len() != "--live"@.len());
    }
    assert("--required-ratio"@ != "--downsample"@) by {
        assert("--required-ratio"@.len() != "--downsample"@.len());
    }
    assert("--required-ratio"@ != "--buffer"@) by {
        assert("--required-ratio"@.len() != "--buffer"@.len());
    }
    assert(option_kind("--required-ratio"@) == ArgKind::Measurement(FloatSetting::RequiredRatio));
    assert("--min-ref-spacing"@ != "--config"@) by {
        assert("--min-ref-spacing"@.len() != "--config"@.len());
    }
    assert("--min-ref-spacing"@ != "--refs"@) by {
        assert("--min-ref-spacing"@.len() != "--refs"@.len());
    }
    assert("--min-ref-spacing"@ != "--input"@) by {
        assert("--min-ref-spacing"@.len() != "--input"@.len());
    }
    assert("--min-ref-spacing"@ != "--live"@) by {
        assert("--min-ref-spacing"@.len() != "--live"@.len());
    }
    assert("--min-ref-spacing"@ != "--downsample"@) by {
        assert("--min-ref-spacing"@.len() != "--downsample"@.len());
    }
    assert("--min-ref-spacing"@ != "--buffer"@) by {
        assert("--min-ref-spacing"@.len() != "--buffer"@.len());
    }
    assert("--min-ref-spacing"@ != "--required-ratio"@) by {
        assert("--min-ref-spacing"@.len() != "--required-ratio"@.len());
    }
    assert("--min-ref-spacing"@ != "--history-points"@) by {
        assert("--min-ref-spacing"@.len() != "--history-points"@.len());
    }
    assert("--min-ref-spacing"@ != "--rate"@) by {
        assert("--min-ref-spacing"@.len() != "--rate"@.len());
    }
    assert(option_kind("--min-ref-spacing"@) == ArgKind::Measurement(FloatSetting::MinRefSpacing));
    assert("--sector-radius"@ != "--config"@) by {
        assert("--sector-radius"@.len() != "--config"@.len());
    }
    assert("--sector-radius"@ != "--refs"@) by {
        assert("--sector-radius"@.len() != "--refs"@.len());
    }
    assert("--sector-radius"@ != "--input"@) by {
        assert("--sector-radius"@.len() != "--input"@.len());
    }
    assert("--sector-radius"@ != "--live"@) by {
        assert("--sector-radius"@.len() != "--live"@.len());
    }
    assert("--sector-radius"@ != "--downsample"@) by {
        assert("--sector-radius"@.len() != "--downsample"@.len());
    }
    assert("--sector-radius"@ != "--buffer"@) by {
        assert("--sector-radius"@.len() != "--buffer"@.len());
    }
    assert("--sector-radius"@ != "--required-ratio"@) by {
        assert("--sector-radius"@.len() != "--required-ratio"@.len());
    }
    assert("--sector-radius"@ != "--history-points"@) by {
        assert("--sector-radius"@.len() != "--history-points"@.len());
    }
    assert("--sector-radius"@ != "--rate"@) by {
        assert("--sector-radius"@.len() != "--rate"@.len());
    }
    assert("--sector-radius"@ != "--min-ref-spacing"@) by {
        assert("--sector-radius"@.len() != "--min-ref-spacing"@.len());
    }
    assert("--sector-radius"@ != "--labels"@) by {
        assert("--sector-radius"@.len() != "--labels"@.len());
    }
    assert("--sector-radius"@ != "--overlay-file"@) by {
        assert("--sector-radius"@.len() != "--overlay-file"@.len());
    }
    assert("--sector-radius"@ != "--rtss"@) by {
        assert("--sector-radius"@.len() != "--rtss"@.len());
    }
    assert("--sector-radius"@ != "--rtss-owner"@) by {
        assert("--sector-radius"@.len() != "--rtss-owner"@.len());
    }
    assert("--sector-radius"@ != "--rtss-slot"@) by {
        assert("--sector-radius"@.len() != "--rtss-slot"@.len());
    }
    assert("--sector-radius"@ != "--rtss-clear-all"@) by {
        assert("--sector-radius"@.len() != "--rtss-clear-all"@.len());
    }
    assert("--sector-radius"@ != "--sectors-shp"@) by {
        assert("--sector-radius"@.len() != "--sectors-shp"@.len());
    }
    assert("--sector-radius"@ != "--sector-track-field"@) by {
        assert("--sector-radius"@.len() != "--sector-track-field"@.len());
    }
    assert("--sector-radius"@ != "--sector-id-field"@) by {
        assert("--sector-radius"@.len() != "--sector-id-field"@.len());
    }
    assert("--sector-radius"@ != "--timing-db"@) by {
        assert("--sector-radius"@.len() != "--timing-db"@.len());
    }
    assert("--sector-radius"@ != "--sector-cooldown-ms"@) by {
        assert("--sector-radius"@.len() != "--sector-cooldown-ms"@.len());
    }
    assert(option_kind("--sector-radius"@) == ArgKind::Measurement(FloatSetting::SectorRadius));
    assert("--track-keep-max-dist"@ != "--config"@) by {
        assert("--track-keep-max-dist"@.len() != "--config"@.len());
    }
    assert("--track-keep-max-dist"@ != "--refs"@) by {
        assert("--track-keep-max-dist"@.len() != "--refs"@.len());
    }
    assert("--track-keep-max-dist"@ != "--input"@) by {
        assert("--track-keep-max-dist"@.len() != "--input"@.len());
    }
    assert("--track-keep-max-dist"@ != "--live"@) by {
        assert("--track-keep-max-dist"@.len() != "--live"@.len());
    }
    assert("--track-keep-max-dist"@ != "--downsample"@) by {
        assert("--track-keep-max-dist"@.len() != "--downsample"@.len());
    }
    assert("--track-keep-max-dist"@ != "--buffer"@) by {
        assert("--track-keep-max-dist"@.len() != "--buffer"@.len());
    }
    assert("--track-keep-max-dist"@ != "--required-ratio"@) by {
        assert("--track-keep-max-dist"@.len() != "--required-ratio"@.len());
    }
    assert("--track-keep-max-dist"@ != "--history-points"@) by {
        assert("--track-keep-max-dist"@.len() != "--history-points"@.len());
    }
    assert("--track-keep-max-dist"@ != "--rate"@) by {
        assert("--track-keep-max-dist"@.len() != "--rate"@.len());
    }
    assert("--track-keep-max-dist"@ != "--min-ref-spacing"@) by {
        assert("--track-keep-max-dist"@.len() != "--min-ref-spacing"@.len());
    }
    assert("--track-keep-max-dist"@ != "--labels"@) by {
        assert("--track-keep-max-dist"@.len() != "--labels"@.len());
    }
    assert("--track-keep-max-dist"@ != "--overlay-file"@) by {
        assert("--track-keep-max-dist"@.len() != "--overlay-file"@.len());
    }
    assert("--track-keep-max-dist"@ != "--rtss"@) by {
        assert("--track-keep-max-dist"@.len() != "--rtss"@.len());
    }
    assert("--track-keep-max-dist"@ != "--rtss-owner"@) by {
        assert("--track-keep-max-dist"@.len() != "--rtss-owner"@.len());
    }
    assert("--track-keep-max-dist"@ != "--rtss-slot"@) by {
        assert("--track-keep-max-dist"@.len() != "--rtss-slot"@.len());
    }
    assert("--track-keep-max-dist"@ != "--rtss-clear-all"@) by {
        assert("--track-keep-max-dist"@.len() != "--rtss-clear-all"@.len());
    }
    assert("--track-keep-max-dist"@ != "--sectors-shp"@) by {
        assert("--track-keep-max-dist"@.len() != "--sectors-shp"@.len());
    }
    assert("--track-keep-max-dist"@ != "--sector-track-field"@) by {
        assert("--track-keep-max-dist"@.len() != "--sector-track-field"@.len());
    }
    assert("--track-keep-max-dist"@ != "--sector-id-field"@) by {
        assert("--track-keep-max-dist"@.len() != "--sector-id-field"@.len());
    }
    assert("--track-keep-max-dist"@ != "--timing-db"@) by {
        assert("--track-keep-max-dist"@.len() != "--timing-db"@.len());
    }
    assert("--track-keep-max-dist"@ != "--sector-cooldown-ms"@) by {
        assert("--track-keep-max-dist"@.len() != "--sector-cooldown-ms"@.len());
    }
    assert("--track-keep-max-dist"@ != "--sector-radius"@) by {
        assert("--track-keep-max-dist"@.len() != "--sector-radius"@.len());
    }
    assert(option_kind("--track-keep-max-dist"@) == ArgKind::Measurement(FloatSetting::TrackKeepMaxDist));
    assert("--track-switch-min-gain"@ != "--config"@) by {
        assert("--track-switch-min-gain"@.len() != "--config"@.len());
    }
    assert("--track-switch-min-gain"@ != "--refs"@) by {
        assert("--track-switch-min-gain"@.len() != "--refs"@.len());
    }
    assert("--track-switch-min-gain"@ != "--input"@) by {
        assert("--track-switch-min-gain"@.len() != "--input"@.len());
    }
    assert("--track-switch-min-gain"@ != "--live"@) by {
        assert("--track-switch-min-gain"@.len() != "--live"@.len());
    }
    assert("--track-switch-min-gain"@ != "--downsample"@) by {
        assert("--track-switch-min-gain"@.len() != "--downsample"@.len());
    }
    assert("--track-switch-min-gain"@ != "--buffer"@) by {
        assert("--track-switch-min-gain"@.len() != "--buffer"@.len());
    }
    assert("--track-switch-min-gain"@ != "--required-ratio"@) by {
        assert("--track-switch-min-gain"@.len() != "--required-ratio"@.len());
    }
    assert("--track-switch-min-gain"@ != "--history-points"@) by {
        assert("--track-switch-min-gain"@.len() != "--history-points"@.len());
    }
    assert("--track-switch-min-gain"@ != "--rate"@) by {
        assert("--track-switch-min-gain"@.len() != "--rate"@.len());
    }
    assert("--track-switch-min-gain"@ != "--min-ref-spacing"@) by {
        assert("--track-switch-min-gain"@.len() != "--min-ref-spacing"@.len());
    }
    assert("--track-switch-min-gain"@ != "--labels"@) by {
        assert("--track-switch-min-gain"@.len() != "--labels"@.len());
    }
    assert("--track-switch-min-gain"@ != "--overlay-file"@) by {
        assert("--track-switch-min-gain"@.len() != "--overlay-file"@.len());
    }
    assert("--track-switch-min-gain"@ != "--rtss"@) by {
        assert("--track-switch-min-gain"@.len() != "--rtss"@.len());
    }
    assert("--track-switch-min-gain"@ != "--rtss-owner"@) by {
        assert("--track-switch-min-gain"@.len() != "--rtss-owner"@.len());
    }
    assert("--track-switch-min-gain"@ != "--rtss-slot"@) by {
        assert("--track-switch-min-gain"@.len() != "--rtss-slot"@.len());
    }
    assert("--track-switch-min-gain"@ != "--rtss-clear-all"@) by {
        assert("--track-switch-min-gain"@.len() != "--rtss-clear-all"@.len());
    }
    assert("--track-switch-min-gain"@ != "--sectors-shp"@) by {
        assert("--track-switch-min-gain"@.len() != "--sectors-shp"@.len());
    }
    assert("--track-switch-min-gain"@ != "--sector-track-field"@) by {
        assert("--track-switch-min-gain"@.len() != "--sector-track-field"@.len());
    }
    assert("--track-switch-min-gain"@ != "--sector-id-field"@) by {
        assert("--track-switch-min-gain"@.len() != "--sector-id-field"@.len());
    }
    assert("--track-switch-min-gain"@ != "--timing-db"@) by {
        assert("--track-switch-min-gain"@.len() != "--timing-db"@.len());
    }
    assert("--track-switch-min-gain"@ != "--sector-cooldown-ms"@) by {
        assert("--track-switch-min-gain"@.len() != "--sector-cooldown-ms"@.len());
    }
    assert("--track-switch-min-gain"@ != "--sector-radius"@) by {
        assert("--track-switch-min-gain"@.len() != "--sector-radius"@.len());
    }
    assert("--track-switch-min-gain"@ != "--track-keep-max-dist"@) by {
        assert("--track-switch-min-gain"@.len() != "--track-keep-max-dist"@.len());
    }
    assert(option_kind("--track-switch-min-gain"@) == ArgKind::Measurement(FloatSetting::TrackSwitchMinGain));
    assert("--track-lock-after-sec"@ != "--config"@) by {
        assert("--track-lock-after-sec"@.len() != "--config"@.len());
    }
    assert("--track-lock-after-sec"@ != "--refs"@) by {
        assert("--track-lock-after-sec"@.len() != "--refs"@.len());
    }
    assert("--track-lock-after-sec"@ != "--input"@) by {
        assert("--track-lock-after-sec"@.len() != "--input"@.len());
    }
    assert("--track-lock-after-sec"@ != "--live"@) by {
        assert("--track-lock-after-sec"@.len() != "--live"@.len());
    }
    assert("--track-lock-after-sec"@ != "--downsample"@) by {
        assert("--track-lock-after-sec"@.len() != "--downsample"@.len());
    }
    assert("--track-lock-after-sec"@ != "--buffer"@) by {
        assert("--track-lock-after-sec"@.len() != "--buffer"@.len());
    }
    assert("--track-lock-after-sec"@ != "--required-ratio"@) by {
        assert("--track-lock-after-sec"@.len() != "--required-ratio"@.len());
    }
    assert("--track-lock-after-sec"@ != "--history-points"@) by {
        assert("--track-lock-after-sec"@.len() != "--history-points"@.len());
    }
    assert("--track-lock-after-sec"@ != "--rate"@) by {
        assert("--track-lock-after-sec"@.len() != "--rate"@.len());
    }
    assert("--track-lock-after-sec"@ != "--min-ref-spacing"@) by {
        assert("--track-lock-after-sec"@.len() != "--min-ref-spacing"@.len());
    }
    assert("--track-lock-after-sec"@ != "--labels"@) by {
        assert("--track-lock-after-sec"@.len() != "--labels"@.len());
    }
    assert("--track-lock-after-sec"@ != "--overlay-file"@) by {
        assert("--track-lock-after-sec"@.len() != "--overlay-file"@.len());
    }
    assert("--track-lock-after-sec"@ != "--rtss"@) by {
        assert("--track-lock-after-sec"@.len() != "--rtss"@.len());
    }
    assert("--track-lock-after-sec"@ != "--rtss-owner"@) by {
        assert("--track-lock-after-sec"@.len() != "--rtss-owner"@.len());
    }
    assert("--track-lock-after-sec"@ != "--rtss-slot"@) by {
        assert("--track-lock-after-sec"@.len() != "--rtss-slot"@.len());
    }
    assert("--track-lock-after-sec"@ != "--rtss-clear-all"@) by {
        assert("--track-lock-after-sec"@.len() != "--rtss-clear-all"@.len());
    }
    assert("--track-lock-after-sec"@ != "--sectors-shp"@) by {
        assert("--track-lock-after-sec"@.len() != "--sectors-shp"@.len());
    }
    assert("--track-lock-after-sec"@ != "--sector-track-field"@) by {
        assert("--track-lock-after-sec"@.len() != "--sector-track-field"@.len());
    }
    assert("--track-lock-after-sec"@ != "--sector-id-field"@) by {
        assert("--track-lock-after-sec"@.len() != "--sector-id-field"@.len());
    }
    assert("--track-lock-after-sec"@ != "--timing-db"@) by {
        assert("--track-lock-after-sec"@.len() != "--timing-db"@.len());
    }
    assert("--track-lock-after-sec"@ != "--sector-cooldown-ms"@) by {
        assert("--track-lock-after-sec"@.len() != "--sector-cooldown-ms"@.len());
    }
    assert("--track-lock-after-sec"@ != "--sector-radius"@) by {
        assert("--track-lock-after-sec"@.len() != "--sector-radius"@.len());
    }
    assert("--track-lock-after-sec"@ != "--track-keep-max-dist"@) by {
        assert("--track-lock-after-sec"@.len() != "--track-keep-max-dist"@.len());
    }
    assert("--track-lock-after-sec"@ != "--track-switch-min-gain"@) by {
        assert("--track-lock-after-sec"@.len() != "--track-switch-min-gain"@.len());
    }
    assert(option_kind("--track-lock-after-sec"@) == ArgKind::Measurement(FloatSetting::TrackLockAfterSec));
    assert("--track-unlock-speed-kmh"@ != "--config"@) by {
        assert("--track-unlock-speed-kmh"@.len() != "--config"@.len());
    }
    assert("--track-unlock-speed-kmh"@ != "--refs"@) by {
        assert("--track-unlock-speed-kmh"@.len() != "--refs"@.len());
    }
    assert("--track-unlock-speed-kmh"@ != "--input"@) by {
        assert("--track-unlock-speed-kmh"@.len() != "--input"@.len());
    }
    assert("--track-unlock-speed-kmh"@ != "--live"@) by {
        assert("--track-unlock-speed-kmh"@.len() != "--live"@.len());
    }
    assert("--track-unlock-speed-kmh"@ != "--downsample"@) by {
        assert("--track-unlock-speed-kmh"@.len() != "--downsample"@.len());
    }
    assert("--track-unlock-speed-kmh"@ != "--buffer"@) by {
        assert("--track-unlock-speed-kmh"@.len() != "--buffer"@.len());
    }
    assert("--track-unlock-speed-kmh"@ != "--required-ratio"@) by {
        assert("--track-unlock-speed-kmh"@.len() != "--required-ratio"@.len());
    }
    assert("--track-unlock-speed-kmh"@ != "--history-points"@) by {
        assert("--track-unlock-speed-kmh"@.len() != "--history-points"@.len());
    }
    assert("--track-unlock-speed-kmh"@ != "--rate"@) by {
        assert("--track-unlock-speed-kmh"@.len() != "--rate"@.len());
    }
    assert("--track-unlock-speed-kmh"@ != "--min-ref-spacing"@) by {
        assert("--track-unlock-speed-kmh"@.len() != "--min-ref-spacing"@.len());
    }
    assert("--track-unlock-speed-kmh"@ != "--labels"@) by {
        assert("--track-unlock-speed-kmh"@.len() != "--labels"@.len());
    }
    assert("--track-unlock-speed-kmh"@ != "--overlay-file"@) by {
        assert("--track-unlock-speed-kmh"@.len() != "--overlay-file"@.len());
    }
    assert("--track-unlock-speed-kmh"@ != "--rtss"@) by {
        assert("--track-unlock-speed-kmh"@.len() != "--rtss"@.len());
    }
    assert("--track-unlock-speed-kmh"@ != "--rtss-owner"@) by {
        assert("--track-unlock-speed-kmh"@.len() != "--rtss-owner"@.len());
    }
    assert("--track-unlock-speed-kmh"@ != "--rtss-slot"@) by {
        assert("--track-unlock-speed-kmh"@.len() != "--rtss-slot"@.len());
    }
    assert("--track-unlock-speed-kmh"@ != "--rtss-clear-all"@) by {
        assert("--track-unlock-speed-kmh"@.len() != "--rtss-clear-all"@.len());
    }
    assert("--track-unlock-speed-kmh"@ != "--sectors-shp"@) by {
        assert("--track-unlock-speed-kmh"@.len() != "--sectors-shp"@.len());
    }
    assert("--track-unlock-speed-kmh"@ != "--sector-track-field"@) by {
        assert("--track-unlock-speed-kmh"@.len() != "--sector-track-field"@.len());
    }
    assert("--track-unlock-speed-kmh"@ != "--sector-id-field"@) by {
        assert("--track-unlock-speed-kmh"@.len() != "--sector-id-field"@.len());
    }
    assert("--track-unlock-speed-kmh"@ != "--timing-db"@) by {
        assert("--track-unlock-speed-kmh"@.len() != "--timing-db"@.len());
    }
    assert("--track-unlock-speed-kmh"@ != "--sector-cooldown-ms"@) by {
        assert("--track-unlock-speed-kmh"@.len() != "--sector-cooldown-ms"@.len());
    }
    assert("--track-unlock-speed-kmh"@ != "--sector-radius"@) by {
        assert("--track-unlock-speed-kmh"@.len() != "--sector-radius"@.len());
    }
    assert("--track-unlock-speed-kmh"@ != "--track-keep-max-dist"@) by {
        assert("--track-unlock-speed-kmh"@.len() != "--track-keep-max-dist"@.len());
    }
    assert("--track-unlock-speed-kmh"@ != "--track-switch-min-gain"@) by {
        assert("--track-unlock-speed-kmh"@.len() != "--track-switch-min-gain"@.len());
    }
    assert("--track-unlock-speed-kmh"@ != "--track-lock-after-sec"@) by {
        assert("--track-unlock-speed-kmh"@.len() != "--track-lock-after-sec"@.len());
    }
    assert(option_kind("--track-unlock-speed-kmh"@) == ArgKind::Measurement(FloatSetting::TrackUnlockSpeedKmh));
    assert("--track-unlock-hold-sec"@ != "--config"@) by {
        assert("--track-unlock-hold-sec"@.len() != "--config"@.len());
    }
    assert("--track-unlock-hold-sec"@ != "--refs"@) by {
        assert("--track-unlock-hold-sec"@.len() != "--refs"@.len());
    }
    assert("--track-unlock-hold-sec"@ != "--input"@) by {
        assert("--track-unlock-hold-sec"@.len() != "--input"@.len());
    }
    assert("--track-unlock-hold-sec"@ != "--live"@) by {
        assert("--track-unlock-hold-sec"@.len() != "--live"@.len());
    }
    assert("--track-unlock-hold-sec"@ != "--downsample"@) by {
        assert("--track-unlock-hold-sec"@.len() != "--downsample"@.len());
    }
    assert("--track-unlock-hold-sec"@ != "--buffer"@) by {
        assert("--track-unlock-hold-sec"@.len() != "--buffer"@.len());
    }
    assert("--track-unlock-hold-sec"@ != "--required-ratio"@) by {
        assert("--track-unlock-hold-sec"@.len() != "--required-ratio"@.len());
    }
    assert("--track-unlock-hold-sec"@ != "--history-points"@) by {
        assert("--track-unlock-hold-sec"@.len() != "--history-points"@.len());
    }
    assert("--track-unlock-hold-sec"@ != "--rate"@) by {
        assert("--track-unlock-hold-sec"@.len() != "--rate"@.len());
    }
    assert("--track-unlock-hold-sec"@ != "--min-ref-spacing"@) by {
        assert("--track-unlock-hold-sec"@.len() != "--min-ref-spacing"@.len());
    }
    assert("--track-unlock-hold-sec"@ != "--labels"@) by {
        assert("--track-unlock-hold-sec"@.len() != "--labels"@.len());
    }
    assert("--track-unlock-hold-sec"@ != "--overlay-file"@) by {
        assert("--track-unlock-hold-sec"@.len() != "--overlay-file"@.len());
    }
    assert("--track-unlock-hold-sec"@ != "--rtss"@) by {
        assert("--track-unlock-hold-sec"@.len() != "--rtss"@.len());
    }
    assert("--track-unlock-hold-sec"@ != "--rtss-owner"@) by {
        assert("--track-unlock-hold-sec"@.len() != "--rtss-owner"@.len());
    }
    assert("--track-unlock-hold-sec"@ != "--rtss-slot"@) by {
        assert("--track-unlock-hold-sec"@.len() != "--rtss-slot"@.len());
    }
    assert("--track-unlock-hold-sec"@ != "--rtss-clear-all"@) by {
        assert("--track-unlock-hold-sec"@.len() != "--rtss-clear-all"@.len());
    }
    assert("--track-unlock-hold-sec"@ != "--sectors-shp"@) by {
        assert("--track-unlock-hold-sec"@.len() != "--sectors-shp"@.len());
    }
    assert("--track-unlock-hold-sec"@ != "--sector-track-field"@) by {
        assert("--track-unlock-hold-sec"@.len() != "--sector-track-field"@.len());
    }
    assert("--track-unlock-hold-sec"@ != "--sector-id-field"@) by {
        assert("--track-unlock-hold-sec"@.len() != "--sector-id-field"@.len());
    }
    assert("--track-unlock-hold-sec"@ != "--timing-db"@) by {
        assert("--track-unlock-hold-sec"@.len() != "--timing-db"@.len());
    }
    assert("--track-unlock-hold-sec"@ != "--sector-cooldown-ms"@) by {
        assert("--track-unlock-hold-sec"@.len() != "--sector-cooldown-ms"@.len());
    }
    assert("--track-unlock-hold-sec"@ != "--sector-radius"@) by {
        assert("--track-unlock-hold-sec"@.len() != "--sector-radius"@.len());
    }
    assert("--track-unlock-hold-sec"@ != "--track-keep-max-dist"@) by {
        assert("--track-unlock-hold-sec"@.len() != "--track-keep-max-dist"@.len());
    }
    assert("--track-unlock-hold-sec"@ != "--track-switch-min-gain"@) by {
        assert("--track-unlock-hold-sec"@[8] != "--track-switch-min-gain"@[8]);
    }
    assert("--track-unlock-hold-sec"@ != "--track-lock-after-sec"@) by {
        assert("--track-unlock-hold-sec"@.len() != "--track-lock-after-sec"@.len());
    }
    assert("--track-unlock-hold-sec"@ != "--track-unlock-speed-kmh"@) by {
        assert("--track-unlock-hold-sec"@.len() != "--track-unlock-speed-kmh"@.len());
    }
    assert(option_kind("--track-unlock-hold-sec"@) == ArgKind::Measurement(FloatSetting::TrackUnlockHoldSec));
    assert("--start-prefilter-radius"@ != "--config"@) by {
        assert("--start-prefilter-radius"@.len() != "--config"@.len());
    }
    assert("--start-prefilter-radius"@ != "--refs"@) by {
        assert("--start-prefilter-radius"@.len() != "--refs"@.len());
    }
    assert("--start-prefilter-radius"@ != "--input"@) by {
        assert("--start-prefilter-radius"@.len() != "--input"@.len());
    }
    assert("--start-prefilter-radius"@ != "--live"@) by {
        assert("--start-prefilter-radius"@.len() != "--live"@.len());
    }
    assert("--start-prefilter-radius"@ != "--downsample"@) by {
        assert("--start-prefilter-radius"@.len() != "--downsample"@.len());
    }
    assert("--start-prefilter-radius"@ != "--buffer"@) by {
        assert("--start-prefilter-radius"@.len() != "--buffer"@.len());
    }
    assert("--start-prefilter-radius"@ != "--required-ratio"@) by {
        assert("--start-prefilter-radius"@.len() != "--required-ratio"@.len());
    }
    assert("--start-prefilter-radius"@ != "--history-points"@) by {
        assert("--start-prefilter-radius"@.len() != "--history-points"@.len());
    }
    assert("--start-prefilter-radius"@ != "--rate"@) by {
        assert("--start-prefilter-radius"@.len() != "--rate"@.len());
    }
    assert("--start-prefilter-radius"@ != "--min-ref-spacing"@) by {
        assert("--start-prefilter-radius"@.len() != "--min-ref-spacing"@.len());
    }
    assert("--start-prefilter-radius"@ != "--labels"@) by {
        assert("--start-prefilter-radius"@.len() != "--labels"@.len());
    }
    assert("--start-prefilter-radius"@ != "--overlay-file"@) by {
        assert("--start-prefilter-radius"@.len() != "--overlay-file"@.len());
    }
    assert("--start-prefilter-radius"@ != "--rtss"@) by {
        assert("--start-prefilter-radius"@.len() != "--rtss"@.len());
    }
    assert("--start-prefilter-radius"@ != "--rtss-owner"@) by {
        assert("--start-prefilter-radius"@.len() != "--rtss-owner"@.len());
    }
    assert("--start-prefilter-radius"@ != "--rtss-slot"@) by {
        assert("--start-prefilter-radius"@.len() != "--rtss-slot"@.len());
    }
    assert("--start-prefilter-radius"@ != "--rtss-clear-all"@) by {
        assert("--start-prefilter-radius"@.len() != "--rtss-clear-all"@.len());
    }
    assert("--start-prefilter-radius"@ != "--sectors-shp"@) by {
        assert("--start-prefilter-radius"@.len() != "--sectors-shp"@.len());
    }
    assert("--start-prefilter-radius"@ != "--sector-track-field"@) by {
        assert("--start-prefilter-radius"@.len() != "--sector-track-field"@.len());
    }
    assert("--start-prefilter-radius"@ != "--sector-id-field"@) by {
        assert("--start-prefilter-radius"@.len() != "--sector-id-field"@.len());
    }
    assert("--start-prefilter-radius"@ != "--timing-db"@) by {
        assert("--start-prefilter-radius"@.len() != "--timing-db"@.len());
    }
    assert("--start-prefilter-radius"@ != "--sector-cooldown-ms"@) by {
        assert("--start-prefilter-radius"@.len() != "--sector-cooldown-ms"@.len());
    }
    assert("--start-prefilter-radius"@ != "--sector-radius"@) by {
        assert("--start-prefilter-radius"@.len() != "--sector-radius"@.len());
    }
    assert("--start-prefilter-radius"@ != "--track-keep-max-dist"@) by {
        assert("--start-prefilter-radius"@.len() != "--track-keep-max-dist"@.len());
    }
    assert("--start-prefilter-radius"@ != "--track-switch-min-gain"@) by {
        assert("--start-prefilter-radius"@.len() != "--track-switch-min-gain"@.len());
    }
    assert("--start-prefilter-radius"@ != "--track-lock-after-sec"@) by {
        assert("--start-prefilter-radius"@.len() != "--track-lock-after-sec"@.len());
    }
    assert("--start-prefilter-radius"@ != "--track-unlock-speed-kmh"@) by {
        assert("--start-prefilter-radius"@[2] != "--track-unlock-speed-kmh"@[2]);
    }
    assert("--start-prefilter-radius"@ != "--track-unlock-hold-sec"@) by {
        assert("--start-prefilter-radius"@.len() != "--track-unlock-hold-sec"@.len());
    }
    assert("--start-prefilter-radius"@ != "--start-points-geojson"@) by {
        assert("--start-prefilter-radius"@.len() != "--start-points-geojson"@.len());
    }
    assert(option_kind("--start-prefilter-radius"@) == ArgKind::Measurement(FloatSetting::StartPrefilterRadius));
}

/// The kind of an argument (see [`option_kind`]).
fn arg_kind(a: &str) -> (k: ArgKind)
    ensures
        k == option_kind(a@),
{
    if str_eq(a, "--config") {
        ArgKind::Config
    } else if str_eq(a, "--refs") {
        ArgKind::Refs
    } else if str_eq(a, "--input") {
        ArgKind::Input
    } else if str_eq(a, "--live") {
        ArgKind::Live
    } else if str_eq(a, "--downsample") {
        ArgKind::Downsample
    } else if str_eq(a, "--buffer") {
        ArgKind::Measurement(FloatSetting::Buffer)
    } else if str_eq(a, "--required-ratio") {
        ArgKind::Measurement(FloatSetting::RequiredRatio)
    } else if str_eq(a, "--history-points") {
        ArgKind::HistoryPoints
    } else if str_eq(a, "--rate") {
        ArgKind::Rate
    } else if str_eq(a, "--min-ref-spacing") {
        ArgKind::Measurement(FloatSetting::MinRefSpacing)
    } else if str_eq(a, "--labels") {
        ArgKind::Labels
    } else if str_eq(a, "--overlay-file") {
        ArgKind::OverlayFile
    } else if str_eq(a, "--rtss") {
        ArgKind::Rtss
    } else if str_eq(a, "--rtss-owner") {
        ArgKind::RtssOwner
    } else if str_eq(a, "--rtss-slot") {
        ArgKind::RtssSlot
    } else if str_eq(a, "--rtss-clear-all") {
        ArgKind::RtssClearAll
    } else if str_eq(a, "--sectors-shp") {
        ArgKind::SectorsShp
    } else if str_eq(a, "--sector-track-field") {
        ArgKind::SectorTrackField
    } else if str_eq(a, "--sector-id-field") {
        ArgKind::SectorIdField
    } else if str_eq(a, "--timing-db") {
        ArgKind::TimingDb
    } else if str_eq(a, "--sector-cooldown-ms") {
        ArgKind::SectorCooldownMs
    } else if str_eq(a, "--sector-radius") {
        ArgKind::Measurement(FloatSetting::SectorRadius)
    } else if str_eq(a, "--track-keep-max-dist") {
        ArgKind::Measurement(FloatSetting::TrackKeepMaxDist)
    } else if str_eq(a, "--track-switch-min-gain") {
        ArgKind::Measurement(FloatSetting::TrackSwitchMinGain)
    } else if str_eq(a, "--track-lock-after-sec") {
        ArgKind::Measurement(FloatSetting::TrackLockAfterSec)
    } else if str_eq(a, "--track-unlock-speed-kmh") {
        ArgKind::Measurement(FloatSetting::TrackUnlockSpeedKmh)
    } else if str_eq(a, "--track-unlock-hold-sec") {
        ArgKind::Measurement(FloatSetting::TrackUnlockHoldSec)
    } else if str_eq(a, "--start-points-geojson") {
        ArgKind::StartPointsGeojson
    } else if str_eq(a, "--start-prefilter-radius") {
        ArgKind::Measurement(FloatSetting::StartPrefilterRadius)
    } else if str_eq(a, "--beep-on-split") {
        ArgKind::BeepOnSplit
    } else if str_eq(a, "--debug-physics-1hz") {
        ArgKind::DebugPhysics1hz
    } else if str_eq(a, "--help") || str_eq(a, "-h") {
        ArgKind::Help
    } else {
        ArgKind::Other
    }
}

/// Whether an option of this kind reads the argument after it.
pub open spec fn takes_value(k: ArgKind) -> bool {
    match k {
        ArgKind::Refs | ArgKind::Input | ArgKind::Downsample | ArgKind::HistoryPoints
        | ArgKind::Rate | ArgKind::Labels | ArgKind::OverlayFile | ArgKind::RtssOwner
        | ArgKind::RtssSlot | ArgKind::SectorsShp | ArgKind::SectorTrackField
        | ArgKind::SectorIdField | ArgKind::TimingDb | ArgKind::SectorCooldownMs
        | ArgKind::StartPointsGeojson | ArgKind::Measurement(_) => true,
        _ => false,
    }
}

/// The message for an option given last, without its value.
pub open spec fn missing_value_text(k: ArgKind) -> Seq<char> {
    match k {
        ArgKind::Refs => "--refs needs comma-separated paths"@,
        ArgKind::Input => "--input needs a .rkyv path"@,
        ArgKind::Downsample => "--downsample needs integer"@,
        ArgKind::HistoryPoints => "--history-points needs integer"@,
        ArgKind::Rate => "--rate needs integer Hz"@,
        ArgKind::Labels => "--labels needs a TOML path"@,
        ArgKind::OverlayFile => "--overlay-file needs a path"@,
        ArgKind::RtssOwner => "--rtss-owner needs a string"@,
        ArgKind::RtssSlot => "--rtss-slot needs integer"@,
        ArgKind::SectorsShp => "--sectors-shp needs .shp path"@,
        ArgKind::SectorTrackField => "--sector-track-field needs field name"@,
        ArgKind::SectorIdField => "--sector-id-field needs field name"@,
        ArgKind::TimingDb => "--timing-db needs path"@,
        ArgKind::SectorCooldownMs => "--sector-cooldown-ms needs integer"@,
        ArgKind::StartPointsGeojson => "--start-points-geojson needs path"@,
        ArgKind::Measurement(FloatSetting::Buffer) => "--buffer needs meters value"@,
        ArgKind::Measurement(FloatSetting::RequiredRatio) => "--required-ratio needs value between 0 and 1"@,
        ArgKind::Measurement(FloatSetting::MinRefSpacing) => "--min-ref-spacing needs meters value"@,
        ArgKind::Measurement(FloatSetting::SectorRadius) => "--sector-radius needs meters value"@,
        ArgKind::Measurement(FloatSetting::TrackKeepMaxDist) => "--track-keep-max-dist needs meters value"@,
        ArgKind::Measurement(FloatSetting::TrackSwitchMinGain) => "--track-switch-min-gain needs score delta"@,
        ArgKind::Measurement(FloatSetting::TrackLockAfterSec) => "--track-lock-after-sec needs seconds value"@,
        ArgKind::Measurement(FloatSetting::TrackUnlockSpeedKmh) => "--track-unlock-speed-kmh needs speed value"@,
        ArgKind::Measurement(FloatSetting::TrackUnlockHoldSec) => "--track-unlock-hold-sec needs seconds value"@,
        ArgKind::Measurement(FloatSetting::StartPrefilterRadius) => "--start-prefilter-radius needs meters value"@,
        _ => Seq::empty(),
    }
}

fn missing_value_message(k: ArgKind) -> (r: String)
    ensures
        r@ == missing_value_text(k),
{
    let m = match k {
        ArgKind::Refs => "--refs needs comma-separated paths",
        ArgKind::Input => "--input needs a .rkyv path",
        ArgKind::Downsample => "--downsample needs integer",
        ArgKind::HistoryPoints => "--history-points needs integer",
        ArgKind::Rate => "--rate needs integer Hz",
        ArgKind::Labels => "--labels needs a TOML path",
        ArgKind::OverlayFile => "--overlay-file needs a path",
        ArgKind::RtssOwner => "--rtss-owner needs a string",
        ArgKind::RtssSlot => "--rtss-slot needs integer",
        ArgKind::SectorsShp => "--sectors-shp needs .shp path",
        ArgKind::SectorTrackField => "--sector-track-field needs field name",
        ArgKind::SectorIdField => "--sector-id-field needs field name",
        ArgKind::TimingDb => "--timing-db needs path",
        ArgKind::SectorCooldownMs => "--sector-cooldown-ms needs integer",
        ArgKind::StartPointsGeojson => "--start-points-geojson needs path",
        ArgKind::Measurement(FloatSetting::Buffer) => "--buffer needs meters value",
        ArgKind::Measurement(FloatSetting::RequiredRatio) => "--required-ratio needs value between 0 and 1",
        ArgKind::Measurement(FloatSetting::MinRefSpacing) => "--min-ref-spacing needs meters value",
        ArgKind::Measurement(FloatSetting::SectorRadius) => "--sector-radius needs meters value",
        ArgKind::Measurement(FloatSetting::TrackKeepMaxDist) => "--track-keep-max-dist needs meters value",
        ArgKind::Measurement(FloatSetting::TrackSwitchMinGain) => "--track-switch-min-gain needs score delta",
        ArgKind::Measurement(FloatSetting::TrackLockAfterSec) => "--track-lock-after-sec needs seconds value",
        ArgKind::Measurement(FloatSetting::TrackUnlockSpeedKmh) => "--track-unlock-speed-kmh needs speed value",
        ArgKind::Measurement(FloatSetting::TrackUnlockHoldSec) => "--track-unlock-hold-sec needs seconds value",
        ArgKind::Measurement(FloatSetting::StartPrefilterRadius) => "--start-prefilter-radius needs meters value",
        _ => "",
    };
    proof {
        reveal_strlit("");
    }
    m.to_owned()
}

// ---------------------------------------------------------------- reference lists

/// The entries of a comma-separated list, trimmed, blank ones left out.
pub open spec fn ref_list(parts: Seq<Seq<char>>) -> Seq<Seq<char>>
    decreases parts.len(),
{
    if parts.len() == 0 {
        Seq::empty()
    } else {
        let prev = ref_list(parts.drop_last());
        let t = trimmed(parts.last());
        if t.len() == 0 {
            prev
        } else {
            prev.push(t)
        }
    }
}

/// The paths of a `--refs` value.
pub open spec fn refs_of(v: Seq<char>) -> Seq<Seq<char>> {
    ref_list(split_text(v, ','))
}

/// The views of a list of texts.
pub open spec fn text_views(v: Seq<String>) -> Seq<Seq<char>> {
    v.map_values(|s: String| s@)
}

fn split_refs(v: &str) -> (r: Vec<String>)
    ensures
        text_views(r@) == refs_of(v@),
{
    let cs = chars_of(v);
    let parts = split_chars(&cs, ',');
    let ghost pv = text_views(parts@);
    let mut out: Vec<String> = Vec::new();
    let mut i: usize = 0;
    while i < parts.len()
        invariant
            i <= parts@.len(),
            pv == text_views(parts@),
            text_views(out@) == ref_list(pv.take(i as int)),
        decreases parts@.len() - i,
    {
        let t = trim(parts[i].as_str());
        assert(pv.take(i + 1).drop_last() =~= pv.take(i as int));
        assert(pv.take(i + 1).last() == parts@[i as int]@);
        if t.as_str().unicode_len() > 0 {
            let ghost before = out@;
            out.push(t);
            assert(text_views(out@) =~= text_views(before).push(t@));
        }
        i = i + 1;
    }
    assert(pv.take(pv.len() as int) =~= pv);
    out
}

// ---------------------------------------------------------------- settings

/// The settings of the configuration file that are not measurements.
pub struct TrackMatchFile {
    pub refs: Option<Vec<String>>,
    pub input: Option<String>,
    pub live: Option<bool>,
    pub downsample: Option<usize>,
    pub history_points: Option<usize>,
    pub rate: Option<u64>,
    pub labels: Option<String>,
    pub overlay_file: Option<String>,
    pub rtss: Option<bool>,
    pub rtss_owner: Option<String>,
    pub rtss_slot: Option<u32>,
    pub rtss_clear_all: Option<bool>,
    pub sectors_shp: Option<String>,
    pub sector_track_field: Option<String>,
    pub sector_id_field: Option<String>,
    pub timing_db: Option<String>,
    pub sector_cooldown_ms: Option<u64>,
    pub start_points_geojson: Option<String>,
    pub beep_on_split: Option<bool>,
    pub debug_physics_1hz: Option<bool>,
}

/// The settings of a run that are not measurements.
pub struct TrackMatchSettings {
    pub refs: Vec<String>,
    pub input: Option<String>,
    pub live: bool,
    pub downsample: usize,
    pub history_points: usize,
    pub live_rate_hz: u64,
    pub labels_path: Option<String>,
    pub overlay_file: Option<String>,
    pub rtss: bool,
    pub rtss_owner: String,
    pub rtss_slot: u32,
    pub rtss_clear_all: bool,
    pub sectors_shp: Option<String>,
    pub sector_track_field: String,
    pub sector_id_field: String,
    pub timing_db_path: Option<String>,
    pub sector_cross_cooldown_ms: u64,
    pub start_points_geojson: String,
    pub beep_on_split: bool,
    pub debug_physics_1hz: bool,
}

/// What the settings of a run hold.
pub struct SettingsView {
    pub refs: Seq<Seq<char>>,
    pub input: Option<Seq<char>>,
    pub live: bool,
    pub downsample: usize,
    pub history_points: usize,
    pub live_rate_hz: u64,
    pub labels_path: Option<Seq<char>>,
    pub overlay_file: Option<Seq<char>>,
    pub rtss: bool,
    pub rtss_owner: Seq<char>,
    pub rtss_slot: u32,
    pub rtss_clear_all: bool,
    pub sectors_shp: Option<Seq<char>>,
    pub sector_track_field: Seq<char>,
    pub sector_id_field: Seq<char>,
    pub timing_db_path: Option<Seq<char>>,
    pub sector_cross_cooldown_ms: u64,
    pub start_points_geojson: Seq<char>,
    pub beep_on_split: bool,
    pub debug_physics_1hz: bool,
}

/// The text of an optional text.
pub open spec fn opt_view(o: Option<String>) -> Option<Seq<char>> {
    match o {
        Some(s) => Some(s@),
        None => None,
    }
}

impl View for TrackMatchSettings {
    type V = SettingsView;

    open spec fn view(&self) -> SettingsView {
        SettingsView {
            refs: text_views(self.refs@),
            input: opt_view(self.input),
            live: self.live,
            downsample: self.downsample,
            history_points: self.history_points,
            live_rate_hz: self.live_rate_hz,
            labels_path: opt_view(self.labels_path),
            overlay_file: opt_view(self.overlay_file),
            rtss: self.rtss,
            rtss_owner: self.rtss_owner@,
            rtss_slot: self.rtss_slot,
            rtss_clear_all: self.rtss_clear_all,
            sectors_shp: opt_view(self.sectors_shp),
            sector_track_field: self.sector_track_field@,
            sector_id_field: self.sector_id_field@,
            timing_db_path: opt_view(self.timing_db_path),
            sector_cross_cooldown_ms: self.sector_cross_cooldown_ms,
            start_points_geojson: self.start_points_geojson@,
            beep_on_split: self.beep_on_split,
            debug_physics_1hz: self.debug_physics_1hz,
        }
    }
}

/// A text setting of the file, or the given default.
pub open spec fn text_or(o: Option<String>, d: Seq<char>) -> Seq<char> {
    match o {
        Some(s) => s@,
        None => d,
    }
}

/// The settings before the command line is read: those of the file, the defaults for the
/// rest.
pub open spec fn file_defaults(f: TrackMatchFile) -> SettingsView {
    SettingsView {
        refs: match f.refs {
            Some(v) => text_views(v@),
            None => Seq::empty(),
        },
        input: opt_view(f.input),
        live: f.live == Some(true),
        downsample: match f.downsample {
            Some(n) => n,
            None => 10,
        },
        history_points: match f.history_points {
            Some(n) => n,
            None => 200,
        },
        live_rate_hz: match f.rate {
            Some(n) => n,
            None => 5,
        },
        labels_path: opt_view(f.labels),
        overlay_file: opt_view(f.overlay_file),
        rtss: f.rtss == Some(true),
        rtss_owner: text_or(f.rtss_owner, "acr_track_match"@),
        rtss_slot: match f.rtss_slot {
            Some(n) => n,
            None => 0,
        },
        rtss_clear_all: f.rtss_clear_all == Some(true),
        sectors_shp: opt_view(f.sectors_shp),
        sector_track_field: text_or(f.sector_track_field, "src_layer"@),
        sector_id_field: text_or(f.sector_id_field, "seg_id"@),
        timing_db_path: opt_view(f.timing_db),
        sector_cross_cooldown_ms: match f.sector_cooldown_ms {
            Some(n) => n,
            None => 500,
        },
        start_points_geojson: text_or(f.start_points_geojson, "timing/start_points.geojson"@),
        beep_on_split: f.beep_on_split == Some(true),
        debug_physics_1hz: f.debug_physics_1hz == Some(true),
    }
}

/// How reading the command line ends.
pub enum ArgsEnd {
    /// Every argument was read.
    Done,
    /// Help was asked for.
    Help,
    /// Reading stopped at an error, with its message.
    Failed(String),
}

/// How reading the command line ends, with the message as text.
pub enum EndView {
    Done,
    Help,
    Failed(Seq<char>),
}

/// The text form of an ending.
pub open spec fn end_view(e: ArgsEnd) -> EndView {
    match e {
        ArgsEnd::Done => EndView::Done,
        ArgsEnd::Help => EndView::Help,
        ArgsEnd::Failed(m) => EndView::Failed(m@),
    }
}

/// The measurements read, as texts.
pub open spec fn measurement_views(m: Seq<(FloatSetting, String)>) -> Seq<(FloatSetting, Seq<char>)> {
    m.map_values(|p: (FloatSetting, String)| (p.0, p.1@))
}

/// What the value `v` of an option of kind `k` does to the settings and to the
/// measurements read so far, or the error it causes.
pub open spec fn apply_value(
    k: ArgKind,
    v: Seq<char>,
    s: SettingsView,
    m: Seq<(FloatSetting, Seq<char>)>,
) -> Result<(SettingsView, Seq<(FloatSetting, Seq<char>)>), Seq<char>> {
    match k {
        ArgKind::Refs => Ok((SettingsView { refs: refs_of(v), ..s }, m)),
        ArgKind::Input => Ok((SettingsView { input: Some(v), ..s }, m)),
        ArgKind::Downsample => match parsed_usize(v) {
            Err(e) => Err(e),
            Ok(n) => if n == 0 {
                Err("--downsample must be >= 1"@)
            } else {
                Ok((SettingsView { downsample: n, ..s }, m))
            },
        },
        ArgKind::HistoryPoints => match parsed_usize(v) {
            Err(e) => Err(e),
            Ok(n) => Ok((SettingsView { history_points: n, ..s }, m)),
        },
        ArgKind::Rate => match parsed_u64(v) {
            Err(e) => Err(e),
            Ok(n) => Ok((SettingsView { live_rate_hz: if n < 1 { 1 } else { n }, ..s }, m)),
        },
        ArgKind::Labels => Ok((SettingsView { labels_path: Some(v), ..s }, m)),
        ArgKind::OverlayFile => Ok((SettingsView { overlay_file: Some(v), ..s }, m)),
        ArgKind::RtssOwner => Ok((SettingsView { rtss_owner: v, ..s }, m)),
        ArgKind::RtssSlot => match parsed_u32(v) {
            Err(e) => Err(e),
            Ok(n) => Ok((SettingsView { rtss_slot: n, ..s }, m)),
        },
        ArgKind::SectorsShp => Ok((SettingsView { sectors_shp: Some(v), ..s }, m)),
        ArgKind::SectorTrackField => Ok((SettingsView { sector_track_field: v, ..s }, m)),
        ArgKind::SectorIdField => Ok((SettingsView { sector_id_field: v, ..s }, m)),
        ArgKind::TimingDb => Ok((SettingsView { timing_db_path: Some(v), ..s }, m)),
        ArgKind::SectorCooldownMs => match parsed_u64(v) {
            Err(e) => Err(e),
            Ok(n) => Ok((SettingsView { sector_cross_cooldown_ms: n, ..s }, m)),
        },
        ArgKind::StartPointsGeojson => Ok((SettingsView { start_points_geojson: v, ..s }, m)),
        ArgKind::Measurement(f) => Ok((s, m.push((f, v)))),
        _ => Ok((s, m)),
    }
}

/// What a flag of kind `k` does to the settings.
pub open spec fn apply_flag(k: ArgKind, s: SettingsView) -> SettingsView {
    match k {
        ArgKind::Live => SettingsView { live: true, ..s },
        ArgKind::Rtss => SettingsView { rtss: true, ..s },
        ArgKind::RtssClearAll => SettingsView { rtss_clear_all: true, ..s },
        ArgKind::BeepOnSplit => SettingsView { beep_on_split: true, ..s },
        ArgKind::DebugPhysics1hz => SettingsView { debug_physics_1hz: true, ..s },
        _ => s,
    }
}

/// Reading the arguments from position `i` on, with settings `s` and measurements `m`
/// read so far: the settings, the measurements and how reading ends. `--config` and its
/// value are passed over, help stops reading, an option given last without its value or
/// with a value it refuses stops it with an error, other arguments are ignored.
pub open spec fn scan_from(
    args: Seq<Seq<char>>,
    i: int,
    s: SettingsView,
    m: Seq<(FloatSetting, Seq<char>)>,
) -> (SettingsView, Seq<(FloatSetting, Seq<char>)>, EndView)
    decreases args.len() + 2 - i,
{
    if i < 0 || i >= args.len() {
        (s, m, EndView::Done)
    } else {
        let k = option_kind(args[i]);
        if k == ArgKind::Help {
            (s, m, EndView::Help)
        } else if k == ArgKind::Config {
            scan_from(args, i + 2, s, m)
        } else if takes_value(k) {
            if i + 1 >= args.len() {
                (s, m, EndView::Failed(missing_value_text(k)))
            } else {
                match apply_value(k, args[i + 1], s, m) {
                    Ok((s2, m2)) => scan_from(args, i + 2, s2, m2),
                    Err(e) => (s, m, EndView::Failed(e)),
                }
            }
        } else {
            scan_from(args, i + 1, apply_flag(k, s), m)
        }
    }
}

/// Reading a whole command line (its first argument is the program) over the settings of
/// the file; when every argument was read, the references must be named and, unless the
/// run is live, an input.
pub open spec fn track_match_scan(args: Seq<Seq<char>>, file: TrackMatchFile) -> (
    SettingsView,
    Seq<(FloatSetting, Seq<char>)>,
    EndView,
) {
    let r = scan_from(args, 1, file_defaults(file), Seq::empty());
    let s = r.0;
    let end = match r.2 {
        EndView::Done => if s.refs.len() == 0 {
            EndView::Failed("Need --refs refA,refB,refC"@)
        } else if !s.live && s.input is None {
            EndView::Failed("Need --input <file.rkyv> for offline mode"@)
        } else {
            EndView::Done
        },
        other => other,
    };
    (s, r.1, end)
}

/// A command line read to its end names the reference tracks and says where the
/// telemetry comes from: live, or an input file.
pub proof fn lemma_scan_done_has_refs_and_source(args: Seq<Seq<char>>, file: TrackMatchFile)
    ensures
        track_match_scan(args, file).2 is Done ==> track_match_scan(args, file).0.refs.len() > 0 && (
        track_match_scan(args, file).0.live || track_match_scan(args, file).0.input is Some),
{
}

// ---------------------------------------------------------------- reading

/// The configuration file named by the command line, from position `i` on, `found` being
/// the one named before: the last `--config` value; `--config` given last is an error.
pub open spec fn config_scan(args: Seq<Seq<char>>, i: int, found: Option<Seq<char>>) -> Result<
    Option<Seq<char>>,
    Seq<char>,
>
    decreases args.len() + 2 - i,
{
    if i < 0 || i >= args.len() {
        Ok(found)
    } else if args[i] == "--config"@ {
        if i + 1 >= args.len() {
            Err("--config needs a TOML path"@)
        } else {
            config_scan(args, i + 2, Some(args[i + 1]))
        }
    } else {
        config_scan(args, i + 1, found)
    }
}

/// The configuration file the command line names (its first argument is the program).
pub fn config_path_arg(args: &Vec<String>) -> (r: Result<Option<String>, String>)
    ensures
        match config_scan(text_views(args@), 1, None) {
            Ok(found) => r matches Ok(p) && opt_view(p) == found,
            Err(e) => r matches Err(m) && m@ == e,
        },
{
    let ghost av = text_views(args@);
    let mut found: Option<String> = None;
    let mut i: usize = 1;
    while i < args.len()
        invariant
            1 <= i,
            av == text_views(args@),
            config_scan(av, i as int, opt_view(found)) == config_scan(av, 1, None),
        decreases args@.len() + 2 - i,
    {
        assert(av[i as int] == args@[i as int]@);
        if str_eq(args[i].as_str(), "--config") {
            if i + 1 >= args.len() {
                return Err(String::from_str("--config needs a TOML path"));
            }
            assert(av[i + 1] == args@[i + 1]@);
            found = Some(args[i + 1].clone());
            i = i + 2;
        } else {
            i = i + 1;
        }
    }
    Ok(found)
}

fn copy_texts(v: &Vec<String>) -> (r: Vec<String>)
    ensures
        text_views(r@) == text_views(v@),
{
    let mut out: Vec<String> = Vec::new();
    let mut i: usize = 0;
    while i < v.len()
        invariant
            i <= v@.len(),
            text_views(out@) == text_views(v@.take(i as int)),
        decreases v@.len() - i,
    {
        let ghost before = out@;
        out.push(v[i].clone());
        assert(text_views(out@) =~= text_views(before).push(v@[i as int]@));
        assert(v@.take(i + 1) =~= v@.take(i as int).push(v@[i as int]));
        assert(text_views(v@.take(i + 1)) =~= text_views(v@.take(i as int)).push(v@[i as int]@));
        i = i + 1;
    }
    assert(v@.take(v@.len() as int) =~= v@);
    out
}

fn copy_opt(o: &Option<String>) -> (r: Option<String>)
    ensures
        opt_view(r) == opt_view(*o),
{
    match o {
        Some(s) => Some(s.clone()),
        None => None,
    }
}

/// The settings before the command line is read (see [`file_defaults`]).
pub fn settings_from_file(f: &TrackMatchFile) -> (r: TrackMatchSettings)
    ensures
        r@ == file_defaults(*f),
{
    let refs = match &f.refs {
        Some(v) => copy_texts(v),
        None => Vec::new(),
    };
    proof {
        if f.refs is None {
            assert(text_views(refs@) =~= Seq::<Seq<char>>::empty());
        }
    }
    let rtss_owner = match &f.rtss_owner {
        Some(s) => s.clone(),
        None => String::from_str("acr_track_match"),
    };
    let sector_track_field = match &f.sector_track_field {
        Some(s) => s.clone(),
        None => String::from_str("src_layer"),
    };
    let sector_id_field = match &f.sector_id_field {
        Some(s) => s.clone(),
        None => String::from_str("seg_id"),
    };
    let start_points_geojson = match &f.start_points_geojson {
        Some(s) => s.clone(),
        None => String::from_str("timing/start_points.geojson"),
    };
    TrackMatchSettings {
        refs,
        input: copy_opt(&f.input),
        live: f.live == Some(true),
        downsample: match f.downsample {
            Some(n) => n,
            None => 10,
        },
        history_points: match f.history_points {
            Some(n) => n,
            None => 200,
        },
        live_rate_hz: match f.rate {
            Some(n) => n,
            None => 5,
        },
        labels_path: copy_opt(&f.labels),
        overlay_file: copy_opt(&f.overlay_file),
        rtss: f.rtss == Some(true),
        rtss_owner,
        rtss_slot: match f.rtss_slot {
            Some(n) => n,
            None => 0,
        },
        rtss_clear_all: f.rtss_clear_all == Some(true),
        sectors_shp: copy_opt(&f.sectors_shp),
        sector_track_field,
        sector_id_field,
        timing_db_path: copy_opt(&f.timing_db),
        sector_cross_cooldown_ms: match f.sector_cooldown_ms {
            Some(n) => n,
            None => 500,
        },
        start_points_geojson,
        beep_on_split: f.beep_on_split == Some(true),
        debug_physics_1hz: f.debug_physics_1hz == Some(true),
    }
}

/// Applies the value `v` of an option of kind `k` (see [`apply_value`]); on an error
/// nothing changes.
fn apply_value_to(
    k: ArgKind,
    v: &String,
    s: &mut TrackMatchSettings,
    m: &mut Vec<(FloatSetting, String)>,
) -> (r: Result<(), String>)
    requires
        takes_value(k),
    ensures
        match apply_value(k, v@, old(s)@, measurement_views(old(m)@)) {
            Ok((s2, m2)) => r is Ok && final(s)@ == s2 && measurement_views(final(m)@) == m2,
            Err(e) => (r matches Err(x) && x@ == e) && final(s)@ == old(s)@
                && measurement_views(final(m)@) == measurement_views(old(m)@),
        },
{
    match k {
        ArgKind::Refs => {
            s.refs = split_refs(v.as_str());
        },
        ArgKind::Input => {
            s.input = Some(v.clone());
        },
        ArgKind::Downsample => {
            match parse_usize(v.as_str()) {
                Err(e) => {
                    return Err(e);
                },
                Ok(n) => {
                    if n == 0 {
                        return Err(String::from_str("--downsample must be >= 1"));
                    }
                    s.downsample = n;
                },
            }
        },
        ArgKind::HistoryPoints => {
            match parse_usize(v.as_str()) {
                Err(e) => {
                    return Err(e);
                },
                Ok(n) => {
                    s.history_points = n;
                },
            }
        },
        ArgKind::Rate => {
            match parse_u64(v.as_str()) {
                Err(e) => {
                    return Err(e);
                },
                Ok(n) => {
                    s.live_rate_hz = if n < 1 {
                        1
                    } else {
                        n
                    };
                },
            }
        },
        ArgKind::Labels => {
            s.labels_path = Some(v.clone());
        },
        ArgKind::OverlayFile => {
            s.overlay_file = Some(v.clone());
        },
        ArgKind::RtssOwner => {
            s.rtss_owner = v.clone();
        },
        ArgKind::RtssSlot => {
            match parse_u32(v.as_str()) {
                Err(e) => {
                    return Err(e);
                },
                Ok(n) => {
                    s.rtss_slot = n;
                },
            }
        },
        ArgKind::SectorsShp => {
            s.sectors_shp = Some(v.clone());
        },
        ArgKind::SectorTrackField => {
            s.sector_track_field = v.clone();
        },
        ArgKind::SectorIdField => {
            s.sector_id_field = v.clone();
        },
        ArgKind::TimingDb => {
            s.timing_db_path = Some(v.clone());
        },
        ArgKind::SectorCooldownMs => {
            match parse_u64(v.as_str()) {
                Err(e) => {
                    return Err(e);
                },
                Ok(n) => {
                    s.sector_cross_cooldown_ms = n;
                },
            }
        },
        ArgKind::StartPointsGeojson => {
            s.start_points_geojson = v.clone();
        },
        ArgKind::Measurement(f) => {
            let ghost before = m@;
            m.push((f, v.clone()));
            assert(measurement_views(m@) =~= measurement_views(before).push((f, v@)));
        },
        _ => {},
    }
    proof {
        reveal_strlit("--downsample must be >= 1");
    }
    Ok(())
}

/// What a command line asks of the track matcher: the settings, the measurements as
/// texts in the order given, and how reading ended.
pub struct TrackMatchArgs {
    pub settings: TrackMatchSettings,
    pub measurements: Vec<(FloatSetting, String)>,
    pub end: ArgsEnd,
}

/// Reads a command line (its first argument is the program) over the settings of the
/// configuration file (see [`track_match_scan`]).
pub fn scan_track_match_args(args: &Vec<String>, file: &TrackMatchFile) -> (r: TrackMatchArgs)
    ensures
        (r.settings@, measurement_views(r.measurements@), end_view(r.end)) == track_match_scan(
            text_views(args@),
            *file,
        ),
{
    let ghost av = text_views(args@);
    let mut s = settings_from_file(file);
    let mut m: Vec<(FloatSetting, String)> = Vec::new();
    assert(measurement_views(m@) =~= Seq::<(FloatSetting, Seq<char>)>::empty());
    let ghost target = scan_from(av, 1, file_defaults(*file), Seq::empty());
    let mut i: usize = 1;
    let mut end = ArgsEnd::Done;
    let mut stopped = false;
    while i < args.len() && !stopped
        invariant
            1 <= i,
            av == text_views(args@),
            !stopped ==> i <= args@.len() || i == 1,
            !stopped ==> end is Done,
            !stopped ==> scan_from(av, i as int, s@, measurement_views(m@)) == target,
            stopped ==> (s@, measurement_views(m@), end_view(end)) == target && !(end is Done),
        decreases args@.len() + 2 - i, if stopped {
            0int
        } else {
            1int
        },
    {
        assert(av[i as int] == args@[i as int]@);
        let k = arg_kind(args[i].as_str());
        if k == ArgKind::Help {
            end = ArgsEnd::Help;
            stopped = true;
        } else if k == ArgKind::Config {
            if i + 1 >= args.len() {
                assert(scan_from(av, i + 2, s@, measurement_views(m@)) == scan_from(
                    av,
                    args@.len() as int,
                    s@,
                    measurement_views(m@),
                ));
                i = args.len();
            } else {
                i = i + 2;
            }
        } else if k == ArgKind::Refs || k == ArgKind::Input || k == ArgKind::Downsample
            || k == ArgKind::HistoryPoints || k == ArgKind::Rate || k == ArgKind::Labels
            || k == ArgKind::OverlayFile || k == ArgKind::RtssOwner || k == ArgKind::RtssSlot
            || k == ArgKind::SectorsShp || k == ArgKind::SectorTrackField
            || k == ArgKind::SectorIdField || k == ArgKind::TimingDb
            || k == ArgKind::SectorCooldownMs || k == ArgKind::StartPointsGeojson || matches!(
            k,
            ArgKind::Measurement(_)
        ) {
            if i + 1 >= args.len() {
                end = ArgsEnd::Failed(missing_value_message(k));
                stopped = true;
            } else {
                assert(av[i + 1] == args@[i + 1]@);
                let ghost s0 = s@;
                let ghost m0 = measurement_views(m@);
                match apply_value_to(k, &args[i + 1], &mut s, &mut m) {
                    Ok(()) => {
                        assert(scan_from(av, i as int, s0, m0) == scan_from(av, i + 2, s@, measurement_views(m@)));
                        i = i + 2;
                    },
                    Err(e) => {
                        end = ArgsEnd::Failed(e);
                        stopped = true;
                    },
                }
            }
        } else {
            let ghost old_s = s@;
            if k == ArgKind::Live {
                s.live = true;
            } else if k == ArgKind::Rtss {
                s.rtss = true;
            } else if k == ArgKind::RtssClearAll {
                s.rtss_clear_all = true;
            } else if k == ArgKind::BeepOnSplit {
                s.beep_on_split = true;
            } else if k == ArgKind::DebugPhysics1hz {
                s.debug_physics_1hz = true;
            }
            assert(s@ == apply_flag(k, old_s));
            i = i + 1;
        }
    }
    if !stopped {
        if s.refs.len() == 0 {
            end = ArgsEnd::Failed(String::from_str("Need --refs refA,refB,refC"));
        } else if !s.live && s.input.is_none() {
            end = ArgsEnd::Failed(String::from_str("Need --input <file.rkyv> for offline mode"));
        }
    }
    TrackMatchArgs { settings: s, measurements: m, end }
}

// ---------------------------------------------------------------- laws

/// Each setting of `r1` and `r2` (read from starting settings `s1` and `s2`) is either
/// the same in both or still its starting value in both.
pub open spec fn settings_agree(
    r1: SettingsView,
    r2: SettingsView,
    s1: SettingsView,
    s2: SettingsView,
) -> bool {
    &&& (r1.refs == r2.refs || (r1.refs == s1.refs && r2.refs == s2.refs))
    &&& (r1.input == r2.input || (r1.input == s1.input && r2.input == s2.input))
    &&& (r1.live == r2.live || (r1.live == s1.live && r2.live == s2.live))
    &&& (r1.downsample == r2.downsample || (r1.downsample == s1.downsample && r2.downsample == s2.downsample))
    &&& (r1.history_points == r2.history_points || (r1.history_points == s1.history_points && r2.history_points == s2.history_points))
    &&& (r1.live_rate_hz == r2.live_rate_hz || (r1.live_rate_hz == s1.live_rate_hz && r2.live_rate_hz == s2.live_rate_hz))
    &&& (r1.labels_path == r2.labels_path || (r1.labels_path == s1.labels_path && r2.labels_path == s2.labels_path))
    &&& (r1.overlay_file == r2.overlay_file || (r1.overlay_file == s1.overlay_file && r2.overlay_file == s2.overlay_file))
    &&& (r1.rtss == r2.rtss || (r1.rtss == s1.rtss && r2.rtss == s2.rtss))
    &&& (r1.rtss_owner == r2.rtss_owner || (r1.rtss_owner == s1.rtss_owner && r2.rtss_owner == s2.rtss_owner))
    &&& (r1.rtss_slot == r2.rtss_slot || (r1.rtss_slot == s1.rtss_slot && r2.rtss_slot == s2.rtss_slot))
    &&& (r1.rtss_clear_all == r2.rtss_clear_all || (r1.rtss_clear_all == s1.rtss_clear_all && r2.rtss_clear_all == s2.rtss_clear_all))
    &&& (r1.sectors_shp == r2.sectors_shp || (r1.sectors_shp == s1.sectors_shp && r2.sectors_shp == s2.sectors_shp))
    &&& (r1.sector_track_field == r2.sector_track_field || (r1.sector_track_field == s1.sector_track_field && r2.sector_track_field == s2.sector_track_field))
    &&& (r1.sector_id_field == r2.sector_id_field || (r1.sector_id_field == s1.sector_id_field && r2.sector_id_field == s2.sector_id_field))
    &&& (r1.timing_db_path == r2.timing_db_path || (r1.timing_db_path == s1.timing_db_path && r2.timing_db_path == s2.timing_db_path))
    &&& (r1.sector_cross_cooldown_ms == r2.sector_cross_cooldown_ms || (r1.sector_cross_cooldown_ms == s1.sector_cross_cooldown_ms && r2.sector_cross_cooldown_ms == s2.sector_cross_cooldown_ms))
    &&& (r1.start_points_geojson == r2.start_points_geojson || (r1.start_points_geojson == s1.start_points_geojson && r2.start_points_geojson == s2.start_points_geojson))
    &&& (r1.beep_on_split == r2.beep_on_split || (r1.beep_on_split == s1.beep_on_split && r2.beep_on_split == s2.beep_on_split))
    &&& (r1.debug_physics_1hz == r2.debug_physics_1hz || (r1.debug_physics_1hz == s1.debug_physics_1hz && r2.debug_physics_1hz == s2.debug_physics_1hz))
}

proof fn lemma_agree_compose(
    r1: SettingsView,
    r2: SettingsView,
    t1: SettingsView,
    t2: SettingsView,
    s1: SettingsView,
    s2: SettingsView,
)
    requires
        settings_agree(r1, r2, t1, t2),
        settings_agree(t1, t2, s1, s2),
    ensures
        settings_agree(r1, r2, s1, s2),
{
}

#[verifier::rlimit(40)]
proof fn lemma_apply_value_agrees(
    k: ArgKind,
    v: Seq<char>,
    s1: SettingsView,
    s2: SettingsView,
    m: Seq<(FloatSetting, Seq<char>)>,
)
    ensures
        apply_value(k, v, s1, m) is Ok <==> apply_value(k, v, s2, m) is Ok,
        apply_value(k, v, s1, m) matches Err(e1) ==> apply_value(k, v, s2, m) == Err::<
            (SettingsView, Seq<(FloatSetting, Seq<char>)>),
            Seq<char>,
        >(e1),
        apply_value(k, v, s1, m) matches Ok((t1, m1)) ==> (apply_value(k, v, s2, m) matches Ok(
            (t2, m2),
        ) && m1 == m2 && settings_agree(t1, t2, s1, s2)),
{
    match k {
        ArgKind::Downsample => {
            if let Ok(n) = parsed_usize(v) {
                if n != 0 {
                    assert(settings_agree(
                        SettingsView { downsample: n, ..s1 },
                        SettingsView { downsample: n, ..s2 },
                        s1,
                        s2,
                    ));
                }
            }
        },
        ArgKind::HistoryPoints => {
            if let Ok(n) = parsed_usize(v) {
                assert(settings_agree(
                    SettingsView { history_points: n, ..s1 },
                    SettingsView { history_points: n, ..s2 },
                    s1,
                    s2,
                ));
            }
        },
        ArgKind::Rate => {
            if let Ok(n) = parsed_u64(v) {
                let r = if n < 1 {
                    1u64
                } else {
                    n
                };
                assert(settings_agree(
                    SettingsView { live_rate_hz: r, ..s1 },
                    SettingsView { live_rate_hz: r, ..s2 },
                    s1,
                    s2,
                ));
            }
        },
        ArgKind::RtssSlot => {
            if let Ok(n) = parsed_u32(v) {
                assert(settings_agree(
                    SettingsView { rtss_slot: n, ..s1 },
                    SettingsView { rtss_slot: n, ..s2 },
                    s1,
                    s2,
                ));
            }
        },
        ArgKind::SectorCooldownMs => {
            if let Ok(n) = parsed_u64(v) {
                assert(settings_agree(
                    SettingsView { sector_cross_cooldown_ms: n, ..s1 },
                    SettingsView { sector_cross_cooldown_ms: n, ..s2 },
                    s1,
                    s2,
                ));
            }
        },
        _ => {},
    }
}

proof fn lemma_apply_flag_agrees(k: ArgKind, s1: SettingsView, s2: SettingsView)
    ensures
        settings_agree(apply_flag(k, s1), apply_flag(k, s2), s1, s2),
{
}

/// The command line overrides the configuration file: reading the same arguments from
/// two different starting settings ends the same way, reads the same measurements, and
/// leaves every setting either at the value the arguments give it (the same from both
/// starts) or at its starting value.
pub proof fn lemma_command_line_overrides(
    args: Seq<Seq<char>>,
    i: int,
    s1: SettingsView,
    s2: SettingsView,
    m: Seq<(FloatSetting, Seq<char>)>,
)
    ensures
        scan_from(args, i, s1, m).1 == scan_from(args, i, s2, m).1,
        scan_from(args, i, s1, m).2 == scan_from(args, i, s2, m).2,
        settings_agree(scan_from(args, i, s1, m).0, scan_from(args, i, s2, m).0, s1, s2),
    decreases args.len() + 2 - i,
{
    if i < 0 || i >= args.len() {
    } else {
        let k = option_kind(args[i]);
        if k == ArgKind::Help {
        } else if k == ArgKind::Config {
            lemma_command_line_overrides(args, i + 2, s1, s2, m);
        } else if takes_value(k) {
            if i + 1 < args.len() {
                let v = args[i + 1];
                lemma_apply_value_agrees(k, v, s1, s2, m);
                if let Ok((t1, m1)) = apply_value(k, v, s1, m) {
                    let t2 = apply_value(k, v, s2, m)->Ok_0.0;
                    lemma_command_line_overrides(args, i + 2, t1, t2, m1);
                    lemma_agree_compose(
                        scan_from(args, i + 2, t1, m1).0,
                        scan_from(args, i + 2, t2, m1).0,
                        t1,
                        t2,
                        s1,
                        s2,
                    );
                }
            }
        } else {
            let t1 = apply_flag(k, s1);
            let t2 = apply_flag(k, s2);
            lemma_apply_flag_agrees(k, s1, s2);
            lemma_command_line_overrides(args, i + 1, t1, t2, m);
            lemma_agree_compose(
                scan_from(args, i + 1, t1, m).0,
                scan_from(args, i + 1, t2, m).0,
                t1,
                t2,
                s1,
                s2,
            );
        }
    }
}

} // verus!
