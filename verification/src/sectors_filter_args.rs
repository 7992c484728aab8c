//! The command line of the sector filter: input and output files, the names of the
//! track and id fields, and the minimum distance (handed back as text, in order).

use vstd::prelude::*;
use crate::text::str_eq;
use crate::track_match_args::{opt_view, text_views};

verus! {

/// What the sector filter's command line sets.
pub struct SectorsFilterArgs {
    pub input: Option<String>,
    pub output: Option<String>,
    pub track_field: String,
    pub id_field: String,
    /// The values given to `--min-dist`, in order, still to be read as numbers.
    pub min_dist_texts: Vec<String>,
    /// How reading ended: `None` when every argument was read and both files are named.
    pub error: Option<String>,
    /// Help was asked for.
    pub help: bool,
}

/// What the sector filter's command line sets, as texts.
pub struct SectorsFilterView {
    pub input: Option<Seq<char>>,
    pub output: Option<Seq<char>>,
    pub track_field: Seq<char>,
    pub id_field: Seq<char>,
    pub min_dist_texts: Seq<Seq<char>>,
}

/// The settings before any argument is read.
pub open spec fn filter_defaults() -> SectorsFilterView {
    SectorsFilterView {
        input: None,
        output: None,
        track_field: "src_layer"@,
        id_field: "seg_id"@,
        min_dist_texts: Seq::empty(),
    }
}

/// The message for an option of the sector filter given last without its value.
pub open spec fn filter_missing_value(a: Seq<char>) -> Seq<char> {
    if a == "--input"@ {
        "--input needs path"@
    } else if a == "--output"@ {
        "--output needs path"@
    } else if a == "--min-dist"@ {
        "--min-dist needs meters value"@
    } else if a == "--track-field"@ {
        "--track-field needs name"@
    } else {
        "--id-field needs name"@
    }
}

/// Whether an argument is an option of the sector filter that reads a value.
pub open spec fn filter_takes_value(a: Seq<char>) -> bool {
    a == "--input"@ || a == "--output"@ || a == "--min-dist"@ || a == "--track-field"@ || a
        == "--id-field"@
}

/// Reading the sector filter's arguments from position `i` on: the settings, and how
/// reading ends (`None` when every argument was read, `Some(None)` for help, else the
/// error).
pub open spec fn filter_scan(args: Seq<Seq<char>>, i: int, s: SectorsFilterView) -> (
    SectorsFilterView,
    Option<Option<Seq<char>>>,
)
    decreases args.len() + 2 - i,
{
    if i < 0 || i >= args.len() {
        (s, None)
    } else {
        let a = args[i];
        if a == "--help"@ || a == "-h"@ {
            (s, Some(None))
        } else if filter_takes_value(a) {
            if i + 1 >= args.len() {
                (s, Some(Some(filter_missing_value(a))))
            } else {
                let v = args[i + 1];
                let s2 = if a == "--input"@ {
                    SectorsFilterView { input: Some(v), ..s }
                } else if a == "--output"@ {
                    SectorsFilterView { output: Some(v), ..s }
                } else if a == "--min-dist"@ {
                    SectorsFilterView { min_dist_texts: s.min_dist_texts.push(v), ..s }
                } else if a == "--track-field"@ {
                    SectorsFilterView { track_field: v, ..s }
                } else {
                    SectorsFilterView { id_field: v, ..s }
                };
                filter_scan(args, i + 2, s2)
            }
        } else {
            filter_scan(args, i + 1, s)
        }
    }
}

/// The view of what was read.
pub open spec fn filter_view(r: SectorsFilterArgs) -> SectorsFilterView {
    SectorsFilterView {
        input: opt_view(r.input),
        output: opt_view(r.output),
        track_field: r.track_field@,
        id_field: r.id_field@,
        min_dist_texts: text_views(r.min_dist_texts@),
    }
}

/// Reads the sector filter's command line (its first argument is the program): when
/// every argument was read, the input and then the output file must be named.
pub fn parse_sectors_filter_args(args: &Vec<String>) -> (r: SectorsFilterArgs)
    ensures
        ({
            let (s, end) = filter_scan(text_views(args@), 1, filter_defaults());
            &&& filter_view(r) == s
            &&& r.help == (end == Some(None::<Seq<char>>))
            &&& match end {
                Some(Some(e)) => r.error matches Some(m) && m@ == e,
                Some(None) => r.error is None,
                None => if s.input is None {
                    r.error matches Some(m) && m@ == "Need --input <sectors.shp>"@
                } else if s.output is None {
                    r.error matches Some(m) && m@ == "Need --output <sectors.filtered.shp>"@
                } else {
                    r.error is None
                },
            }
        }),
{
    let ghost av = text_views(args@);
    let mut r = SectorsFilterArgs {
        input: None,
        output: None,
        track_field: String::from_str("src_layer"),
        id_field: String::from_str("seg_id"),
        min_dist_texts: Vec::new(),
        error: None,
        help: false,
    };
    assert(filter_view(r) == filter_defaults()) by {
        assert(text_views(r.min_dist_texts@) =~= Seq::<Seq<char>>::empty());
    }
    let ghost target = filter_scan(av, 1, filter_defaults());
    let mut i: usize = 1;
    let mut stopped = false;
    while i < args.len() && !stopped
        invariant
            1 <= i,
            av == text_views(args@),
            !stopped ==> i <= args@.len() || i == 1,
            !stopped ==> r.error is None && !r.help && filter_scan(av, i as int, filter_view(r))
                == target,
            stopped ==> filter_view(r) == target.0 && (match target.1 {
                Some(Some(e)) => r.error matches Some(m) && m@ == e && !r.help,
                Some(None) => r.error is None && r.help,
                None => false,
            }),
        decreases args@.len() + 2 - i, if stopped {
            0int
        } else {
            1int
        },
    {
        assert(av[i as int] == args@[i as int]@);
        let a = args[i].as_str();
        if str_eq(a, "--help") || str_eq(a, "-h") {
            r.help = true;
            stopped = true;
        } else if str_eq(a, "--input") || str_eq(a, "--output") || str_eq(a, "--min-dist")
            || str_eq(a, "--track-field") || str_eq(a, "--id-field") {
            if i + 1 >= args.len() {
                let m = if str_eq(a, "--input") {
                    "--input needs path"
                } else if str_eq(a, "--output") {
                    "--output needs path"
                } else if str_eq(a, "--min-dist") {
                    "--min-dist needs meters value"
                } else if str_eq(a, "--track-field") {
                    "--track-field needs name"
                } else {
                    "--id-field needs name"
                };
                r.error = Some(m.to_owned());
                stopped = true;
            } else {
                assert(av[i + 1] == args@[i + 1]@);
                let v = args[i + 1].clone();
                let ghost before = filter_view(r);
                if str_eq(a, "--input") {
                    r.input = Some(v);
                } else if str_eq(a, "--output") {
                    r.output = Some(v);
                } else if str_eq(a, "--min-dist") {
                    let ghost texts = r.min_dist_texts@;
                    r.min_dist_texts.push(v);
                    assert(text_views(r.min_dist_texts@) =~= text_views(texts).push(args@[i + 1]@));
                } else if str_eq(a, "--track-field") {
                    r.track_field = v;
                } else {
                    r.id_field = v;
                }
                i = i + 2;
            }
        } else {
            i = i + 1;
        }
    }
    if !stopped {
        if r.input.is_none() {
            r.error = Some(String::from_str("Need --input <sectors.shp>"));
        } else if r.output.is_none() {
            r.error = Some(String::from_str("Need --output <sectors.filtered.shp>"));
        }
    }
    r
}

} // verus!
