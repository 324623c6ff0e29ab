use vstd::prelude::*;
use vstd::string::StrSliceExecFns;

use crate::skip::{filter_of, parse_skip_filter, str_eq, SkipBuildFilter};

verus! {

/// One build invocation's request: reporting flags, output mode and the
/// skip filters, as parsed from the command line.
#[derive(Clone, Debug)]
pub struct BuildRequest {
    /// Request a contract-name listing.
    pub print_names: bool,
    /// Request a contract-size listing.
    pub print_sizes: bool,
    /// The skip filters, in the order given; absent when no `--skip` flag
    /// occurred.
    pub skip_filters: Option<Vec<SkipBuildFilter>>,
    /// Emit one pretty-printed JSON document instead of incremental text.
    pub format_json: bool,
    /// Suppress incremental output.
    pub silent: bool,
}

/// The abstract value of a parsed request.
pub struct ReqModel {
    pub names: bool,
    pub sizes: bool,
    pub skip: Option<Seq<SkipBuildFilter>>,
    pub json: bool,
    pub silent: bool,
}

/// Why argument parsing failed.
#[derive(Clone, Copy, PartialEq, Eq, Structural, Debug)]
pub enum ArgsError {
    /// Two flags that exclude each other were both given.
    ArgumentConflict,
    /// A token that names no known flag.
    UnknownArgument,
    /// A `--skip` flag with no value after it.
    MissingSkipValue,
    /// A `--skip` value that names no known filter.
    InvalidSkipFilter,
}

impl BuildRequest {
    /// The abstract value this request carries.
    pub open spec fn model(self) -> ReqModel {
        ReqModel {
            names: self.print_names,
            sizes: self.print_sizes,
            skip: match self.skip_filters {
                None => None,
                Some(v) => Some(v@),
            },
            json: self.format_json,
            silent: self.silent,
        }
    }

    /// Well-formed: JSON output and silence exclude each other; parsing
    /// rejects the combination, so no well-formed request holds both.
    pub open spec fn wf(self) -> bool {
        !(self.format_json && self.silent)
    }
}

/// The request no flag has touched yet.
pub open spec fn empty_model() -> ReqModel {
    ReqModel { names: false, sizes: false, skip: None, json: false, silent: false }
}

/// The model with one more skip filter appended.
pub open spec fn with_skip(m: ReqModel, f: SkipBuildFilter) -> ReqModel {
    ReqModel {
        skip: Some(
            match m.skip {
                None => seq![f],
                Some(s) => s.push(f),
            },
        ),
        ..m
    }
}

/// True when a token is a flag rather than a value.
pub open spec fn is_flag_token(t: Seq<char>) -> bool {
    t.len() >= 2 && t[0] == '-' && t[1] == '-'
}

/// True when a token is a flag rather than a value.
pub fn is_flag(t: &String) -> (r: bool)
    ensures
        r == is_flag_token(t@),
{
    let s = t.as_str();
    let n = s.unicode_len();
    if n < 2 {
        return false;
    }
    s.get_char(0) == '-' && s.get_char(1) == '-'
}

/// What parsing the tokens from position `i` onward yields, given the
/// flags seen so far. The conflict between `--format-json` and `--silent`
/// is detected once all tokens are read, before any build logic runs.
pub open spec fn parse_rec(args: Seq<Seq<char>>, i: int, m: ReqModel) -> Result<
    ReqModel,
    ArgsError,
>
    decreases args.len() - i, 0int,
{
    if i >= args.len() {
        if m.json && m.silent {
            Err(ArgsError::ArgumentConflict)
        } else {
            Ok(m)
        }
    } else {
        let t = args[i];
        if t == "--names"@ {
            parse_rec(args, i + 1, ReqModel { names: true, ..m })
        } else if t == "--sizes"@ {
            parse_rec(args, i + 1, ReqModel { sizes: true, ..m })
        } else if t == "--format-json"@ {
            parse_rec(args, i + 1, ReqModel { json: true, ..m })
        } else if t == "--silent"@ {
            parse_rec(args, i + 1, ReqModel { silent: true, ..m })
        } else if t == "--skip"@ {
            if i + 1 >= args.len() || is_flag_token(args[i + 1]) {
                Err(ArgsError::MissingSkipValue)
            } else {
                parse_skip_rec(args, i + 1, m)
            }
        } else {
            Err(ArgsError::UnknownArgument)
        }
    }
}

/// Consumes the values after a `--skip` flag until the next flag or the
/// end of the tokens.
pub open spec fn parse_skip_rec(args: Seq<Seq<char>>, i: int, m: ReqModel) -> Result<
    ReqModel,
    ArgsError,
>
    decreases args.len() - i, 1int,
{
    if i >= args.len() || is_flag_token(args[i]) {
        parse_rec(args, i, m)
    } else {
        match filter_of(args[i]) {
            Some(f) => parse_skip_rec(args, i + 1, with_skip(m, f)),
            None => Err(ArgsError::InvalidSkipFilter),
        }
    }
}

/// What parsing a full token list yields; the first token is the program
/// name and is ignored.
pub open spec fn parse_model(args: Seq<Seq<char>>) -> Result<ReqModel, ArgsError> {
    parse_rec(args, 1, empty_model())
}

/// Law: whatever the token list and the flags seen so far, a parse that
/// succeeds never reports both JSON output and silence: the conflict is
/// rejected during parsing.
pub proof fn lemma_parse_ok_well_formed(args: Seq<Seq<char>>, i: int, m: ReqModel)
    ensures
        parse_rec(args, i, m) matches Ok(r) ==> !(r.json && r.silent),
        parse_skip_rec(args, i, m) matches Ok(r) ==> !(r.json && r.silent),
    decreases args.len() - i,
{
    if i < args.len() {
        lemma_parse_ok_well_formed(args, i + 1, ReqModel { names: true, ..m });
        lemma_parse_ok_well_formed(args, i + 1, ReqModel { sizes: true, ..m });
        lemma_parse_ok_well_formed(args, i + 1, ReqModel { json: true, ..m });
        lemma_parse_ok_well_formed(args, i + 1, ReqModel { silent: true, ..m });
        lemma_parse_ok_well_formed(args, i + 1, m);
        if !is_flag_token(args[i]) && filter_of(args[i]) is Some {
            lemma_parse_ok_well_formed(args, i + 1, with_skip(m, filter_of(args[i]).unwrap()));
        }
    }
}

/// Law: `--format-json` combined with `--silent` is rejected at argument
/// parse time — no request that parses carries both.
pub proof fn lemma_parse_rejects_conflict(args: Seq<Seq<char>>)
    ensures
        parse_model(args) matches Ok(m) ==> !(m.json && m.silent),
{
    lemma_parse_ok_well_formed(args, 1, empty_model());
}

/// The request the mutable parsing state stands for.
pub open spec fn cur_model(
    names: bool,
    sizes: bool,
    skip_present: bool,
    skip: Seq<SkipBuildFilter>,
    json: bool,
    silent: bool,
) -> ReqModel {
    ReqModel {
        names,
        sizes,
        skip: if skip_present {
            Some(skip)
        } else {
            None
        },
        json,
        silent,
    }
}

/// Parses command-line tokens into a build request, or reports the first
/// offending token. A returned request is well formed: the conflict
/// between `--format-json` and `--silent` is rejected here, at parse
/// time.
pub fn try_parse_from(args: &Vec<String>) -> (r: Result<BuildRequest, ArgsError>)
    ensures
        match (r, parse_model(args.deep_view())) {
            (Ok(req), Ok(m)) => req.model() == m && req.wf(),
            (Err(e1), Err(e2)) => e1 == e2,
            _ => false,
        },
{
    let ghost dv = args.deep_view();
    let mut names = false;
    let mut sizes = false;
    let mut json = false;
    let mut silent = false;
    let mut skip_present = false;
    let mut skip_vec: Vec<SkipBuildFilter> = Vec::new();
    let mut i: usize = 1;
    while i < args.len()
        invariant
            dv == args.deep_view(),
            dv.len() == args@.len(),
            parse_rec(dv, i as int, cur_model(names, sizes, skip_present, skip_vec@, json, silent))
                == parse_model(dv),
            !skip_present ==> skip_vec@ == Seq::<SkipBuildFilter>::empty(),
        decreases args@.len() - i,
    {
        let t = &args[i];
        proof {
            assert(dv[i as int] == t@);
        }
        if str_eq(t, "--names") {
            names = true;
            i += 1;
        } else if str_eq(t, "--sizes") {
            sizes = true;
            i += 1;
        } else if str_eq(t, "--format-json") {
            json = true;
            i += 1;
        } else if str_eq(t, "--silent") {
            silent = true;
            i += 1;
        } else if str_eq(t, "--skip") {
            if i + 1 >= args.len() {
                return Err(ArgsError::MissingSkipValue);
            }
            proof {
                assert(dv[i as int + 1] == args@[i as int + 1]@);
            }
            if is_flag(&args[i + 1]) {
                return Err(ArgsError::MissingSkipValue);
            }
            i += 1;
            let ghost i_entry = i as int;
            loop
                invariant
                    dv == args.deep_view(),
                    dv.len() == args@.len(),
                    i_entry <= i as int,
                    i <= args@.len(),
                    parse_skip_rec(
                        dv,
                        i as int,
                        cur_model(names, sizes, skip_present, skip_vec@, json, silent),
                    ) == parse_model(dv),
                    !skip_present ==> skip_vec@ == Seq::<SkipBuildFilter>::empty(),
                ensures
                    dv == args.deep_view(),
                    dv.len() == args@.len(),
                    i_entry <= i as int,
                    i <= args@.len(),
                    i >= args@.len() || is_flag_token(dv[i as int]),
                    parse_skip_rec(
                        dv,
                        i as int,
                        cur_model(names, sizes, skip_present, skip_vec@, json, silent),
                    ) == parse_model(dv),
                    !skip_present ==> skip_vec@ == Seq::<SkipBuildFilter>::empty(),
                decreases args@.len() - i,
            {
                if i >= args.len() {
                    break;
                }
                let v = &args[i];
                proof {
                    assert(dv[i as int] == v@);
                }
                if is_flag(v) {
                    break;
                }
                match parse_skip_filter(v) {
                    None => {
                        return Err(ArgsError::InvalidSkipFilter);
                    },
                    Some(f) => {
                        let ghost mprev = cur_model(
                            names,
                            sizes,
                            skip_present,
                            skip_vec@,
                            json,
                            silent,
                        );
                        skip_present = true;
                        skip_vec.push(f);
                        proof {
                            assert(skip_vec@ =~= match mprev.skip {
                                None => seq![f],
                                Some(s) => s.push(f),
                            });
                            assert(cur_model(names, sizes, skip_present, skip_vec@, json, silent)
                                == with_skip(mprev, f));
                        }
                        i += 1;
                    },
                }
            }
        } else {
            return Err(ArgsError::UnknownArgument);
        }
    }
    let ghost mfinal = cur_model(names, sizes, skip_present, skip_vec@, json, silent);
    if json && silent {
        return Err(ArgsError::ArgumentConflict);
    }
    let req = BuildRequest {
        print_names: names,
        print_sizes: sizes,
        skip_filters: if skip_present {
            Some(skip_vec)
        } else {
            None
        },
        format_json: json,
        silent,
    };
    proof {
        assert(req.model() == mfinal);
    }
    Ok(req)
}

} // verus!
