//! Split feedback tones: the default settings and the number of beeps for a time delta.

use vstd::prelude::*;
use crate::text::{to_lowercase, unicode_lowercase};

verus! {

/// Default feedback mode: generated tones.
pub fn default_mode() -> (r: String)
    ensures
        r@ == "sine"@,
{
    String::from_str("sine")
}

/// Default length of the "faster" tone in milliseconds.
pub fn default_faster_ms() -> (r: u64)
    ensures
        r == 45,
{
    45
}

/// Default length of the "slower" tone in milliseconds.
pub fn default_slower_ms() -> (r: u64)
    ensures
        r == 140,
{
    140
}

/// Default pause between beeps in milliseconds.
pub fn default_gap_ms() -> (r: u64)
    ensures
        r == 200,
{
    200
}

/// Number of beeps for a split delta of `abs_ms` milliseconds (magnitude): one up to
/// 250 ms, two up to 500 ms, three beyond.
pub fn beep_count(abs_ms: i64) -> (r: u32)
    ensures
        abs_ms <= 250 ==> r == 1,
        250 < abs_ms <= 500 ==> r == 2,
        abs_ms > 500 ==> r == 3,
{
    if abs_ms <= 250 {
        1
    } else if abs_ms <= 500 {
        2
    } else {
        3
    }
}

/// Whether the configured mode plays sound files (`wav`, in any case).
pub fn uses_wav(mode: &str) -> (r: bool)
    ensures
        r == (unicode_lowercase(mode@) == "wav"@),
{
    let lower = to_lowercase(mode);
    crate::text::str_eq(lower.as_str(), "wav")
}

} // verus!
