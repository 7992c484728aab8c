//! Live MoTeC capture: its command-line options and the decisions of its polling loop.

use vstd::prelude::*;
use crate::text::{chars_of, has_prefix, push_decimal, decimal, starts_with, str_eq, string_from_chars, trim, trimmed};

verus! {

/// Options of a live capture.
pub struct Options {
    /// Output directory for the `.ld` file; the configured directory when none.
    pub out_dir: Option<String>,
}

/// Whether an argument names the output directory.
pub open spec fn is_out_arg(a: Seq<char>) -> bool {
    a == "--out"@ || has_prefix(a, "--out="@)
}

/// The output directory given by the first `--out <dir>` or `--out=<dir>` argument.
pub fn parse_out_dir(args: &[String]) -> (r: Option<String>)
    ensures
        match r {
            Some(d) => exists|i: int|
                0 <= i < args@.len() && #[trigger] is_out_arg(args@[i]@) && (forall|j: int|
                    0 <= j < i ==> !is_out_arg(#[trigger] args@[j]@)) && (if args@[i]@ == "--out"@ {
                    i + 1 < args@.len() && d@ == args@[i + 1]@
                } else {
                    d@ == args@[i]@.skip(6)
                }),
            None => forall|i: int|
                0 <= i < args@.len() ==> (#[trigger] is_out_arg(args@[i]@) ==> args@[i]@ == "--out"@
                    && i == args@.len() - 1 && forall|j: int|
                    0 <= j < i ==> !is_out_arg(#[trigger] args@[j]@)),
        },
{
    proof {
        reveal_strlit("--out=");
    }
    let mut i: usize = 0;
    while i < args.len()
        invariant
            i <= args@.len(),
            forall|j: int| 0 <= j < i ==> !is_out_arg(#[trigger] args@[j]@),
        decreases args@.len() - i,
    {
        if str_eq(args[i].as_str(), "--out") {
            assert(is_out_arg(args@[i as int]@));
            if i + 1 < args.len() {
                return Some(args[i + 1].clone());
            }
            return None;
        }
        if starts_with(args[i].as_str(), "--out=") {
            let cs = chars_of(args[i].as_str());
            proof {
                reveal_strlit("--out=");
            }
            let v = string_from_chars(&cs, 6, cs.len());
            assert(is_out_arg(args@[i as int]@));
            assert(v@ =~= args@[i as int]@.skip(6));
            return Some(v);
        }
        i = i + 1;
    }
    None
}

/// Number of empty polls after which the capture waits longer between polls.
pub const IDLE_THRESHOLD: u32 = 20;

/// After a poll that found no new data: the new count of empty polls in a row and
/// whether to wait the long idle interval (else the short poll interval).
pub fn after_empty_poll(consecutive_none: u32) -> (r: (u32, bool))
    ensures
        r.0 == if consecutive_none == u32::MAX {
            u32::MAX as int
        } else {
            consecutive_none + 1
        },
        r.1 == (r.0 >= IDLE_THRESHOLD),
{
    let n = if consecutive_none == u32::MAX {
        u32::MAX
    } else {
        consecutive_none + 1
    };
    (n, n >= IDLE_THRESHOLD)
}

/// Whether newly read session statics replace the stored ones: when none are stored and
/// the new ones hold anything, or when the stored ones lack a track and the new ones
/// name one.
pub fn replaces_statics(
    stored: bool,
    stored_track_blank: bool,
    incoming_has_content: bool,
    incoming_has_track: bool,
) -> (r: bool)
    ensures
        r == ((!stored && incoming_has_content) || ((!stored || stored_track_blank)
            && incoming_has_track)),
{
    let track_missing = !stored || stored_track_blank;
    (!stored && incoming_has_content) || (track_missing && incoming_has_track)
}

/// Whether session statics read from the game hold anything: a track, a car or a player
/// name that is not blank, a maximum rpm above zero, or fuel capacity.
pub fn statics_have_content(
    track: &str,
    car_model: &str,
    player_name: &str,
    player_surname: &str,
    player_nick: &str,
    max_rpm: i32,
    has_max_fuel: bool,
) -> (r: bool)
    ensures
        r == (trimmed(track@).len() > 0 || trimmed(car_model@).len() > 0 || trimmed(
            player_name@,
        ).len() > 0 || trimmed(player_surname@).len() > 0 || trimmed(player_nick@).len() > 0
            || max_rpm > 0 || has_max_fuel),
{
    !trim(track).as_str().is_empty() || !trim(car_model).as_str().is_empty() || !trim(
        player_name,
    ).as_str().is_empty() || !trim(player_surname).as_str().is_empty() || !trim(
        player_nick,
    ).as_str().is_empty() || max_rpm > 0 || has_max_fuel
}

/// The name of the `.ld` file of a capture started `secs` seconds after the Unix epoch.
pub fn ld_file_name(secs: u64) -> (r: String)
    ensures
        r@ == "acr_motec_"@ + decimal(secs as nat) + ".ld"@,
{
    let mut s = String::from_str("acr_motec_");
    push_decimal(&mut s, secs);
    s.append(".ld");
    s
}

} // verus!
