//! Verified core of the AC Rally telemetry recorder: the MoTeC `.ld` layout, the rkyv
//! recording framing and its metadata rules, MoTeC channel profiles, pacenote course
//! rules and the text helpers of the command-line tools.

pub mod bytes;
pub mod text;
pub mod calendar;
pub mod motec_ld;
pub mod motec_profile;
pub mod format_meta;
pub mod rkyv_format;
pub mod rkyv_reader;
pub mod pacenote_course;
pub mod tools;
pub mod overlay;
pub mod motec_live;
pub mod split_beep;
pub mod recording_position;
pub mod metadata_doc;
pub mod course_load;
pub mod track_match_args;
pub mod sectors_filter_args;
pub mod live_match;
pub mod sector_sets;
