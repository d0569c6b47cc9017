//! The argument parser: the argument list becomes a validated
//! configuration, or fails on an invalid option letter.

use vstd::prelude::*;
use crate::text::chars_of;

verus! {

/// Which counters are active and where the input comes from; `filename`
/// absent means standard input.
#[derive(Debug)]
pub struct Config {
    pub show_lines: bool,
    pub show_words: bool,
    pub show_bytes: bool,
    pub show_chars: bool,
    pub filename: Option<String>,
}

/// The mathematical image of a `Config`, with the filename as a
/// character sequence.
pub struct ConfigModel {
    pub show_lines: bool,
    pub show_words: bool,
    pub show_bytes: bool,
    pub show_chars: bool,
    pub filename: Option<Seq<char>>,
}

impl View for Config {
    type V = ConfigModel;

    open spec fn view(&self) -> ConfigModel {
        ConfigModel {
            show_lines: self.show_lines,
            show_words: self.show_words,
            show_bytes: self.show_bytes,
            show_chars: self.show_chars,
            filename: match self.filename {
                Option::Some(f) => Option::Some(f@),
                Option::None => Option::None,
            },
        }
    }
}

/// The recognized option letters.
pub open spec fn flag_ok(c: char) -> bool {
    c == 'l' || c == 'w' || c == 'c' || c == 'm'
}

/// An argument is option-bearing when options are still accepted and it
/// begins with a dash.
pub open spec fn is_option_arg(reading_options: bool, arg: Seq<char>) -> bool {
    reading_options && arg.len() > 0 && arg[0] == '-'
}

/// Every character after the dash is a recognized option letter.
pub open spec fn flags_valid(arg: Seq<char>) -> bool {
    forall|k: int| 1 <= k < arg.len() ==> flag_ok(#[trigger] arg[k])
}

/// Whether the option-bearing argument carries the letter `c`.
pub open spec fn sets_flag(arg: Seq<char>, c: char) -> bool {
    exists|k: int| 1 <= k < arg.len() && #[trigger] arg[k] == c
}

/// The parser's running state: the configuration built so far, whether an
/// option-bearing argument was seen, and whether options are still
/// accepted.
pub struct ParseState {
    pub cfg: ConfigModel,
    pub found_option: bool,
    pub reading_options: bool,
}

/// The state before any argument is processed.
pub open spec fn init_state() -> ParseState {
    ParseState {
        cfg: ConfigModel {
            show_lines: false,
            show_words: false,
            show_bytes: false,
            show_chars: false,
            filename: Option::None,
        },
        found_option: false,
        reading_options: true,
    }
}

/// One argument applied to the state; `None` on an invalid option letter.
/// A non-option argument becomes the filename (each later one overwrites
/// it) and ends option reading for good.
pub open spec fn parse_step(st: ParseState, arg: Seq<char>) -> Option<ParseState> {
    if is_option_arg(st.reading_options, arg) {
        if flags_valid(arg) {
            Option::Some(
                ParseState {
                    cfg: ConfigModel {
                        show_lines: st.cfg.show_lines || sets_flag(arg, 'l'),
                        show_words: st.cfg.show_words || sets_flag(arg, 'w'),
                        show_bytes: st.cfg.show_bytes || sets_flag(arg, 'c'),
                        show_chars: st.cfg.show_chars || sets_flag(arg, 'm'),
                        filename: st.cfg.filename,
                    },
                    found_option: true,
                    reading_options: true,
                },
            )
        } else {
            Option::None
        }
    } else {
        Option::Some(
            ParseState {
                cfg: ConfigModel {
                    show_lines: st.cfg.show_lines,
                    show_words: st.cfg.show_words,
                    show_bytes: st.cfg.show_bytes,
                    show_chars: st.cfg.show_chars,
                    filename: Option::Some(arg),
                },
                found_option: st.found_option,
                reading_options: false,
            },
        )
    }
}

/// The state after all the arguments, processed in order.
pub open spec fn parse_run(st: ParseState, args: Seq<Seq<char>>) -> Option<ParseState>
    decreases args.len(),
{
    if args.len() == 0 {
        Option::Some(st)
    } else {
        match parse_step(st, args[0]) {
            Option::Some(st2) => parse_run(st2, args.drop_first()),
            Option::None => Option::None,
        }
    }
}

/// The default mode: with no option-bearing argument seen, lines, words
/// and bytes are counted; with one seen, the flags stay exactly as set.
pub open spec fn finalize(st: ParseState) -> ConfigModel {
    if st.found_option {
        st.cfg
    } else {
        ConfigModel {
            show_lines: true,
            show_words: true,
            show_bytes: true,
            show_chars: st.cfg.show_chars,
            filename: st.cfg.filename,
        }
    }
}

/// The configuration that the whole argument list (program name first,
/// and skipped) yields, or `None` when an argument carries an invalid
/// option letter.
pub open spec fn parse_args(args: Seq<Seq<char>>) -> Option<ConfigModel> {
    let rest = if args.len() == 0 {
        args
    } else {
        args.drop_first()
    };
    match parse_run(init_state(), rest) {
        Option::Some(st) => Option::Some(finalize(st)),
        Option::None => Option::None,
    }
}

/// The views of a sequence of strings.
pub open spec fn views_of(args: Seq<String>) -> Seq<Seq<char>> {
    args.map_values(|a: String| a@)
}

/// The arguments not yet processed, counting from index `i`.
pub open spec fn suffix_from(args: Seq<Seq<char>>, i: int) -> Seq<Seq<char>> {
    if 0 <= i <= args.len() {
        args.skip(i)
    } else {
        Seq::empty()
    }
}

/// The parse state a set of locals stands for.
pub open spec fn state_of(
    show_lines: bool,
    show_words: bool,
    show_bytes: bool,
    show_chars: bool,
    filename: Option<Seq<char>>,
    found_option: bool,
    reading_options: bool,
) -> ParseState {
    ParseState {
        cfg: ConfigModel { show_lines, show_words, show_bytes, show_chars, filename },
        found_option,
        reading_options,
    }
}

/// The view of an optional string.
pub open spec fn view_opt(f: Option<String>) -> Option<Seq<char>> {
    match f {
        Option::Some(s) => Option::Some(s@),
        Option::None => Option::None,
    }
}

impl Config {
    /// Parses the process's argument list (program name first) into a
    /// configuration, exactly as `parse_args` describes; fails with
    /// "Invalid option" if and only if an option-bearing argument carries
    /// an unrecognized letter.
    #[verifier::loop_isolation(false)]
    pub fn new(args: &[String]) -> (r: Result<Config, &'static str>)
        ensures
            match r {
                Result::Ok(cfg) => parse_args(views_of(args@)) == Option::Some(cfg@),
                Result::Err(e) => parse_args(views_of(args@)) is None && e@ == "Invalid option"@,
            },
    {
        let ghost all = views_of(args@);
        let ghost rest = if all.len() == 0 {
            all
        } else {
            all.drop_first()
        };
        let mut show_lines = false;
        let mut show_words = false;
        let mut show_bytes = false;
        let mut show_chars = false;
        let mut filename: Option<String> = Option::None;
        let mut found_option = false;
        let mut reading_options = true;
        let n = args.len();
        let mut i: usize = 1;
        proof {
            assert(suffix_from(all, 1) =~= rest);
        }
        while i < n
            invariant
                1 <= i,
                i <= n || (n == 0 && i == 1),
                parse_run(
                    state_of(
                        show_lines,
                        show_words,
                        show_bytes,
                        show_chars,
                        view_opt(filename),
                        found_option,
                        reading_options,
                    ),
                    suffix_from(all, i as int),
                ) == parse_run(init_state(), rest),
            decreases n - i,
        {
            let ghost st_before = state_of(
                show_lines,
                show_words,
                show_bytes,
                show_chars,
                view_opt(filename),
                found_option,
                reading_options,
            );
            let arg: &String = &args[i];
            proof {
                assert(arg@ == all[i as int]);
                assert(suffix_from(all, i as int)[0] == all[i as int]);
                assert(suffix_from(all, i as int).drop_first() =~= suffix_from(all, i as int + 1));
            }
            let cs = chars_of(arg.as_str());
            if reading_options && cs.len() > 0 && cs[0] == '-' {
                found_option = true;
                let ghost sl0 = show_lines;
                let ghost sw0 = show_words;
                let ghost sb0 = show_bytes;
                let ghost sc0 = show_chars;
                let m = cs.len();
                let mut j: usize = 1;
                while j < m
                    invariant
                        1 <= j <= m,
                        show_lines == (sl0 || exists|k: int|
                            1 <= k < j && #[trigger] cs@[k] == 'l'),
                        show_words == (sw0 || exists|k: int|
                            1 <= k < j && #[trigger] cs@[k] == 'w'),
                        show_bytes == (sb0 || exists|k: int|
                            1 <= k < j && #[trigger] cs@[k] == 'c'),
                        show_chars == (sc0 || exists|k: int|
                            1 <= k < j && #[trigger] cs@[k] == 'm'),
                        forall|k: int| 1 <= k < j ==> flag_ok(#[trigger] cs@[k]),
                    decreases m - j,
                {
                    let c = cs[j];
                    if c == 'l' {
                        show_lines = true;
                    } else if c == 'w' {
                        show_words = true;
                    } else if c == 'c' {
                        show_bytes = true;
                    } else if c == 'm' {
                        show_chars = true;
                    } else {
                        proof {
                            assert(!flag_ok(cs@[j as int]));
                            assert(!flags_valid(all[i as int]));
                            assert(parse_step(st_before, all[i as int]) is None);
                            assert(parse_run(st_before, suffix_from(all, i as int)) is None);
                        }
                        return Result::Err("Invalid option");
                    }
                    proof {
                        assert(cs@[j as int] == c);
                    }
                    j = j + 1;
                }
                proof {
                    let ghost st_after = state_of(
                        show_lines,
                        show_words,
                        show_bytes,
                        show_chars,
                        view_opt(filename),
                        true,
                        reading_options,
                    );
                    assert(flags_valid(all[i as int]));
                    assert(parse_step(st_before, all[i as int]) == Option::Some(st_after));
                }
            } else {
                reading_options = false;
                filename = Option::Some(arg.clone());
                proof {
                    let ghost st_after = state_of(
                        show_lines,
                        show_words,
                        show_bytes,
                        show_chars,
                        view_opt(filename),
                        found_option,
                        false,
                    );
                    assert(!is_option_arg(st_before.reading_options, all[i as int]));
                    assert(parse_step(st_before, all[i as int]) == Option::Some(st_after));
                }
            }
            i = i + 1;
        }
        proof {
            assert(suffix_from(all, i as int) =~= Seq::<Seq<char>>::empty());
        }
        if !found_option {
            show_lines = true;
            show_words = true;
            show_bytes = true;
        }
        let cfg = Config { show_lines, show_words, show_bytes, show_chars, filename };
        Result::Ok(cfg)
    }
}

} // verus!
