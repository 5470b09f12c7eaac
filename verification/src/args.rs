//! The command-line surface: one optional positional file path, an
//! `--output` flag choosing the output shape, and a warning for anything
//! unrecognized.
use vstd::prelude::*;
use crate::schedule::opt_view;

verus! {

/// The output shape of a run.
#[derive(Clone, Copy, PartialEq, Eq, Structural, Debug)]
pub enum OutputFormat {
    Text,
    Json,
}

/// What a warning complains about.
#[derive(Clone, Copy, PartialEq, Eq, Structural, Debug)]
pub enum WarnKind {
    /// An `--output` value that is neither `text` nor `json`.
    UnknownFormat,
    /// An `--output` flag with no value after it.
    MissingValue,
    /// A flag that the program does not know.
    UnknownFlag,
}

/// The outcome of reading the arguments: the chosen path and format, and
/// the warnings in the order they arose, each with the offending text.
pub ghost struct ArgsOutcome {
    pub path: Option<Seq<char>>,
    pub format: OutputFormat,
    pub warnings: Seq<(WarnKind, Seq<char>)>,
}

/// Whether an argument is written as a flag.
pub open spec fn starts_dash_dash(a: Seq<char>) -> bool {
    a.len() >= 2 && a[0] == '-' && a[1] == '-'
}

/// One pass over the arguments from position `i`: an `--output` flag
/// consumes its value (the last valid value wins, an invalid one warns and
/// changes nothing), the first argument not written as a flag becomes the
/// path, and any other flag warns.
pub open spec fn args_spec(args: Seq<Seq<char>>, i: int, acc: ArgsOutcome) -> ArgsOutcome
    decreases args.len() - i,
{
    if i < 0 || i >= args.len() {
        acc
    } else {
        let a = args[i];
        if a == "--output"@ {
            if i + 1 < args.len() {
                let v = args[i + 1];
                let acc2 = if v == "json"@ {
                    ArgsOutcome { format: OutputFormat::Json, ..acc }
                } else if v == "text"@ {
                    ArgsOutcome { format: OutputFormat::Text, ..acc }
                } else {
                    ArgsOutcome { warnings: acc.warnings.push((WarnKind::UnknownFormat, v)), ..acc }
                };
                args_spec(args, i + 2, acc2)
            } else {
                args_spec(
                    args,
                    i + 1,
                    ArgsOutcome { warnings: acc.warnings.push((WarnKind::MissingValue, a)), ..acc },
                )
            }
        } else if !starts_dash_dash(a) {
            let acc2 = if acc.path is None {
                ArgsOutcome { path: Some(a), ..acc }
            } else {
                acc
            };
            args_spec(args, i + 1, acc2)
        } else {
            args_spec(
                args,
                i + 1,
                ArgsOutcome { warnings: acc.warnings.push((WarnKind::UnknownFlag, a)), ..acc },
            )
        }
    }
}

/// The views of the argument texts.
pub open spec fn arg_views(args: Seq<String>) -> Seq<Seq<char>> {
    args.map_values(|a: String| a@)
}

/// The views of collected warnings.
pub open spec fn warn_views(ws: Seq<(WarnKind, String)>) -> Seq<(WarnKind, Seq<char>)> {
    ws.map_values(|w: (WarnKind, String)| (w.0, w.1@))
}

/// The outcome of reading a whole argument list, the leading program name
/// skipped: no path, text output and no warnings until the arguments say
/// otherwise.
pub open spec fn parsed_args(args: Seq<Seq<char>>) -> ArgsOutcome {
    args_spec(
        args,
        1,
        ArgsOutcome { path: None, format: OutputFormat::Text, warnings: Seq::empty() },
    )
}

/// Whether the text equals the given literal.
fn str_is(a: &String, b: &str) -> (r: bool)
    ensures
        r == (a@ == b@),
{
    a.eq(&String::from_str(b))
}

/// Whether the argument is written as a flag.
fn is_flag(a: &String) -> (r: bool)
    ensures
        r == starts_dash_dash(a@),
{
    let s = a.as_str();
    let n = s.unicode_len();
    if n < 2 {
        false
    } else {
        s.get_char(0) == '-' && s.get_char(1) == '-'
    }
}

/// Reads the arguments: the first argument not written as a flag becomes
/// the path, `--output` chooses `text` or `json` (an unknown value or a
/// missing one warns and leaves the format alone, an unknown flag warns),
/// and the program name at the front is skipped.
pub fn parse_args(args: &Vec<String>) -> (r: (Option<String>, OutputFormat, Vec<(
    WarnKind,
    String,
)>))
    ensures
        opt_view(r.0) == parsed_args(arg_views(args@)).path,
        r.1 == parsed_args(arg_views(args@)).format,
        warn_views(r.2@) == parsed_args(arg_views(args@)).warnings,
{
    let ghost views = arg_views(args@);
    let ghost goal = parsed_args(views);
    let mut path: Option<String> = None;
    let mut format = OutputFormat::Text;
    let mut warnings: Vec<(WarnKind, String)> = Vec::new();
    let mut i: usize = 1;
    proof {
        assert(warn_views(warnings@) =~= Seq::<(WarnKind, Seq<char>)>::empty());
    }
    while i < args.len()
        invariant
            1 <= i,
            goal == parsed_args(arg_views(args@)),
            views == arg_views(args@),
            goal == args_spec(
                views,
                i as int,
                ArgsOutcome {
                    path: opt_view(path),
                    format: format,
                    warnings: warn_views(warnings@),
                },
            ),
        decreases args@.len() - i,
    {
        let ghost acc0 = ArgsOutcome {
            path: opt_view(path),
            format: format,
            warnings: warn_views(warnings@),
        };
        let a = &args[i];
        proof {
            assert(views[i as int] == a@);
        }
        if str_is(a, "--output") {
            if i + 1 < args.len() {
                let v = &args[i + 1];
                proof {
                    assert(views[i as int + 1] == v@);
                }
                if str_is(v, "json") {
                    format = OutputFormat::Json;
                } else if str_is(v, "text") {
                    format = OutputFormat::Text;
                } else {
                    warnings.push((WarnKind::UnknownFormat, v.clone()));
                    proof {
                        assert(warn_views(warnings@) =~= acc0.warnings.push(
                            (WarnKind::UnknownFormat, v@),
                        ));
                    }
                }
                i += 2;
            } else {
                warnings.push((WarnKind::MissingValue, a.clone()));
                proof {
                    assert(warn_views(warnings@) =~= acc0.warnings.push(
                        (WarnKind::MissingValue, a@),
                    ));
                }
                i += 1;
            }
        } else if !is_flag(a) {
            if path.is_none() {
                path = Some(a.clone());
            }
            i += 1;
        } else {
            warnings.push((WarnKind::UnknownFlag, a.clone()));
            proof {
                assert(warn_views(warnings@) =~= acc0.warnings.push((WarnKind::UnknownFlag, a@)));
            }
            i += 1;
        }
    }
    (path, format, warnings)
}

} // verus!
