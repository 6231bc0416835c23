//! Turning a command line into a typed request.
//!
//! `parse_argv_data` classifies raw arguments into flags and positional
//! arguments, honouring a `--` separator; `process_args` turns them into a
//! [`TargetObjects`] request: list everything, list a user's groups, or list
//! a group's users.

use vstd::prelude::*;

use crate::errors::{SpecUsageError, UsageError};
use crate::text::str_eq;

verus! {

/// A recognised flag of the command line.
#[derive(Clone, Copy, Debug, PartialEq, Eq, Structural)]
pub enum FlagArg {
    JSON,
    HELP,
    USER,
    GROUP,
}

/// Spec-level mirror of [`TargetObjects`].
pub struct SpecTargetObjects {
    pub user_to_list: Option<Seq<char>>,
    pub group_to_list: Option<Seq<char>>,
}

/// The typed request: at most one of the two names is present.  Both absent
/// means the overview of all groups.
#[derive(Clone, Debug, PartialEq, Eq)]
pub struct TargetObjects {
    pub user_to_list: Option<String>,
    pub group_to_list: Option<String>,
}

impl View for TargetObjects {
    type V = SpecTargetObjects;

    open spec fn view(&self) -> SpecTargetObjects {
        SpecTargetObjects {
            user_to_list: match self.user_to_list {
                Some(name) => Some(name@),
                None => None,
            },
            group_to_list: match self.group_to_list {
                Some(name) => Some(name@),
                None => None,
            },
        }
    }
}

/// What `process_args` returns for the given flags and positional
/// arguments.
pub open spec fn spec_process_args(flag_args: Seq<FlagArg>, pos_args: Seq<Seq<char>>) -> Result<
    SpecTargetObjects,
    SpecUsageError,
> {
    if pos_args.len() > 1 {
        Err(SpecUsageError::TooManyPositionalArguments)
    } else if flag_args.contains(FlagArg::USER) {
        if pos_args.len() == 0 {
            Err(SpecUsageError::MissingRequiredObject)
        } else {
            Ok(SpecTargetObjects { user_to_list: Some(pos_args[0]), group_to_list: None })
        }
    } else if flag_args.contains(FlagArg::GROUP) {
        if pos_args.len() == 0 {
            Err(SpecUsageError::MissingRequiredObject)
        } else {
            Ok(SpecTargetObjects { user_to_list: None, group_to_list: Some(pos_args[0]) })
        }
    } else if pos_args.len() == 1 {
        Err(SpecUsageError::UnspecifiedObjectKind(pos_args[0]))
    } else {
        Ok(SpecTargetObjects { user_to_list: None, group_to_list: None })
    }
}

/// The result of `process_args`, seen at the spec level.
pub open spec fn target_result_view(r: Result<TargetObjects, UsageError>) -> Result<
    SpecTargetObjects,
    SpecUsageError,
> {
    match r {
        Ok(t) => Ok(t@),
        Err(e) => Err(e@),
    }
}

/// Whether `flags` holds `f`.
pub fn has_flag(flags: &Vec<FlagArg>, f: FlagArg) -> (r: bool)
    ensures
        r == flags@.contains(f),
{
    let mut i: usize = 0;
    while i < flags.len()
        invariant
            i <= flags.len(),
            forall|j: int| 0 <= j < i ==> flags@[j] != f,
        decreases flags.len() - i,
    {
        if flags[i] == f {
            return true;
        }
        i = i + 1;
    }
    false
}

/// Builds the typed request from the classified command line.
pub fn process_args(flag_args: Vec<FlagArg>, pos_args: Vec<String>) -> (r: Result<
    TargetObjects,
    UsageError,
>)
    ensures
        target_result_view(r) == spec_process_args(
            flag_args@,
            pos_args@.map_values(|s: String| s@),
        ),
{
    if pos_args.len() > 1 {
        return Err(UsageError::TooManyPositionalArguments);
    }
    if has_flag(&flag_args, FlagArg::USER) {
        if pos_args.len() == 0 {
            return Err(UsageError::MissingRequiredObject);
        }
        return Ok(
            TargetObjects { user_to_list: Some(pos_args[0].clone()), group_to_list: None },
        );
    }
    if has_flag(&flag_args, FlagArg::GROUP) {
        if pos_args.len() == 0 {
            return Err(UsageError::MissingRequiredObject);
        }
        return Ok(
            TargetObjects { user_to_list: None, group_to_list: Some(pos_args[0].clone()) },
        );
    }
    if pos_args.len() == 1 {
        return Err(UsageError::UnspecifiedObjectKind(pos_args[0].clone()));
    }
    Ok(TargetObjects { user_to_list: None, group_to_list: None })
}

/// A dashed argument: non-empty and starting with `'-'`.
pub open spec fn is_dashed(a: Seq<char>) -> bool {
    a.len() > 0 && a[0] == '-'
}

/// The flag a dashed argument denotes, when it is one the program knows.
pub open spec fn flag_of(a: Seq<char>) -> Option<FlagArg> {
    if a == "--json"@ {
        Some(FlagArg::JSON)
    } else if a == "--help"@ {
        Some(FlagArg::HELP)
    } else if a == "--user"@ || a == "-u"@ {
        Some(FlagArg::USER)
    } else if a == "--group"@ || a == "-g"@ {
        Some(FlagArg::GROUP)
    } else {
        None
    }
}

/// The state a left-to-right scan of the option arguments builds up: the
/// flags in first-occurrence order, the first unrecognised dashed argument,
/// and the positional arguments in order.
pub struct ScanState {
    pub flags: Seq<FlagArg>,
    pub unrecognized: Option<Seq<char>>,
    pub positional: Seq<Seq<char>>,
}

pub open spec fn scan_args(opt: Seq<Seq<char>>) -> ScanState
    decreases opt.len(),
{
    if opt.len() == 0 {
        ScanState { flags: Seq::empty(), unrecognized: None, positional: Seq::empty() }
    } else {
        let st = scan_args(opt.drop_last());
        let a = opt.last();
        if is_dashed(a) {
            match flag_of(a) {
                Some(f) => ScanState {
                    flags: if st.flags.contains(f) {
                        st.flags
                    } else {
                        st.flags.push(f)
                    },
                    unrecognized: st.unrecognized,
                    positional: st.positional,
                },
                None => ScanState {
                    flags: st.flags,
                    unrecognized: if st.unrecognized is Some {
                        st.unrecognized
                    } else {
                        Some(a)
                    },
                    positional: st.positional,
                },
            }
        } else {
            ScanState {
                flags: st.flags,
                unrecognized: st.unrecognized,
                positional: st.positional.push(a),
            }
        }
    }
}

/// The position of the first `"--"` separator, if any.
pub open spec fn find_double_hyphen(args: Seq<Seq<char>>) -> Option<int>
    decreases args.len(),
{
    if args.len() == 0 {
        None
    } else if args[0] == "--"@ {
        Some(0)
    } else {
        match find_double_hyphen(args.drop_first()) {
            Some(i) => Some(i + 1),
            None => None,
        }
    }
}

/// A forward scan that stops at the first `"--"` (or the end) has found
/// what `find_double_hyphen` denotes.
proof fn lemma_find_double_hyphen_at(args: Seq<Seq<char>>, i: int)
    requires
        0 <= i <= args.len(),
        forall|j: int| 0 <= j < i ==> args[j] != "--"@,
        i == args.len() || args[i] == "--"@,
    ensures
        find_double_hyphen(args) == if i == args.len() {
            Option::<int>::None
        } else {
            Option::<int>::Some(i)
        },
    decreases i,
{
    if i == 0 {
    } else {
        assert(args[0] != "--"@);
        lemma_find_double_hyphen_at(args.drop_first(), i - 1);
    }
}

/// What `parse_argv_data` returns for a raw argument list.
pub open spec fn spec_parse_argv_data(args: Seq<Seq<char>>) -> Result<
    (Seq<FlagArg>, Seq<Seq<char>>),
    SpecUsageError,
> {
    let opt = match find_double_hyphen(args) {
        Some(p) => args.take(p),
        None => args,
    };
    let trailing = match find_double_hyphen(args) {
        Some(p) => args.skip(p + 1),
        None => Seq::empty(),
    };
    let st = scan_args(opt);
    match st.unrecognized {
        Some(flag) => if st.flags.contains(FlagArg::HELP) {
            Ok((st.flags, Seq::empty()))
        } else {
            Err(SpecUsageError::UnrecognizedFlag(flag))
        },
        None => Ok((st.flags, st.positional + trailing)),
    }
}

/// The result of `parse_argv_data`, seen at the spec level.
pub open spec fn argv_result_view(r: Result<(Vec<FlagArg>, Vec<String>), UsageError>) -> Result<
    (Seq<FlagArg>, Seq<Seq<char>>),
    SpecUsageError,
> {
    match r {
        Ok((flags, pos)) => Ok((flags@, pos@.map_values(|s: String| s@))),
        Err(e) => Err(e@),
    }
}

/// Finds the first `"--"` separator.
fn find_separator(args: &Vec<String>) -> (r: Option<usize>)
    ensures
        (match r {
            Some(p) => Some(p as int),
            None => None,
        }) == find_double_hyphen(args@.map_values(|s: String| s@)),
        r matches Some(p) ==> p < args.len(),
{
    let ghost av = args@.map_values(|s: String| s@);
    let mut i: usize = 0;
    while i < args.len()
        invariant
            i <= args.len(),
            av == args@.map_values(|s: String| s@),
            forall|j: int| 0 <= j < i ==> av[j] != "--"@,
        decreases args.len() - i,
    {
        if str_eq(args[i].as_str(), "--") {
            proof {
                lemma_find_double_hyphen_at(av, i as int);
            }
            return Some(i);
        }
        i = i + 1;
    }
    proof {
        lemma_find_double_hyphen_at(av, av.len() as int);
    }
    None
}

/// Classifies the raw command line into flags and positional arguments.
/// Arguments after a first `"--"` are always positional; an unrecognised
/// dashed argument is an error unless `--help` is also present.
pub fn parse_argv_data(args: Vec<String>) -> (r: Result<(Vec<FlagArg>, Vec<String>), UsageError>)
    ensures
        argv_result_view(r) == spec_parse_argv_data(args@.map_values(|s: String| s@)),
{
    let ghost av = args@.map_values(|s: String| s@);
    let dd = find_separator(&args);
    let opt_len: usize = match dd {
        Some(p) => p,
        None => args.len(),
    };
    let ghost opt = match find_double_hyphen(av) {
        Some(p) => av.take(p),
        None => av,
    };
    proof {
        assert(opt =~= av.take(opt_len as int));
    }
    let mut flag_args: Vec<FlagArg> = Vec::new();
    let mut unrecognized: Option<String> = None;
    let mut positional: Vec<String> = Vec::new();
    let mut k: usize = 0;
    proof {
        assert(opt.take(0) =~= Seq::<Seq<char>>::empty());
    }
    while k < opt_len
        invariant
            k <= opt_len <= args.len(),
            av == args@.map_values(|s: String| s@),
            opt == av.take(opt_len as int),
            flag_args@ == scan_args(opt.take(k as int)).flags,
            (match unrecognized {
                Some(u) => Some(u@),
                None => None,
            }) == scan_args(opt.take(k as int)).unrecognized,
            positional@.map_values(|s: String| s@) == scan_args(opt.take(k as int)).positional,
        decreases opt_len - k,
    {
        let ghost pos_seq = positional@.map_values(|s: String| s@);
        proof {
            assert(opt.take(k + 1).drop_last() =~= opt.take(k as int));
            assert(opt.take(k + 1).last() == av[k as int]);
        }
        let a = &args[k];
        let dashed = !a.as_str().is_empty() && a.as_str().get_char(0) == '-';
        if dashed {
            if str_eq(a.as_str(), "--json") {
                if !has_flag(&flag_args, FlagArg::JSON) {
                    flag_args.push(FlagArg::JSON);
                }
            } else if str_eq(a.as_str(), "--help") {
                if !has_flag(&flag_args, FlagArg::HELP) {
                    flag_args.push(FlagArg::HELP);
                }
            } else if str_eq(a.as_str(), "--user") || str_eq(a.as_str(), "-u") {
                if !has_flag(&flag_args, FlagArg::USER) {
                    flag_args.push(FlagArg::USER);
                }
            } else if str_eq(a.as_str(), "--group") || str_eq(a.as_str(), "-g") {
                if !has_flag(&flag_args, FlagArg::GROUP) {
                    flag_args.push(FlagArg::GROUP);
                }
            } else {
                if unrecognized.is_none() {
                    unrecognized = Some(a.clone());
                }
            }
        } else {
            positional.push(a.clone());
            proof {
                assert(positional@.map_values(|s: String| s@) =~= pos_seq.push(av[k as int]));
            }
        }
        k = k + 1;
    }
    proof {
        assert(opt.take(opt_len as int) =~= opt);
    }
    match unrecognized {
        Some(flag) => {
            if has_flag(&flag_args, FlagArg::HELP) {
                let empty: Vec<String> = Vec::new();
                proof {
                    assert(empty@.map_values(|s: String| s@) =~= Seq::<Seq<char>>::empty());
                }
                Ok((flag_args, empty))
            } else {
                Err(UsageError::UnrecognizedFlag(flag))
            }
        },
        None => {
            let ghost st_positional = positional@.map_values(|s: String| s@);
            let ghost trailing = match find_double_hyphen(av) {
                Some(p) => av.skip(p + 1),
                None => Seq::<Seq<char>>::empty(),
            };
            let mut t: usize = match dd {
                Some(p) => p + 1,
                None => args.len(),
            };
            let ghost t0 = t as int;
            proof {
                assert(trailing =~= av.skip(t0));
                assert(positional@.map_values(|s: String| s@) =~= st_positional + av.skip(t0).take(
                    0,
                ));
            }
            while t < args.len()
                invariant
                    0 <= t0 <= t as int <= args.len(),
                    av == args@.map_values(|s: String| s@),
                    trailing == av.skip(t0),
                    positional@.map_values(|s: String| s@) == st_positional + trailing.take(
                        t - t0,
                    ),
                decreases args.len() - t,
            {
                let ghost pos_seq = positional@.map_values(|s: String| s@);
                positional.push(args[t].clone());
                proof {
                    assert(trailing.take(t - t0 + 1).drop_last() =~= trailing.take(t - t0));
                    assert(trailing.take(t - t0 + 1).last() == av[t as int]);
                    assert(positional@.map_values(|s: String| s@) =~= pos_seq.push(av[t as int]));
                    assert(pos_seq.push(av[t as int]) =~= st_positional + trailing.take(
                        t - t0 + 1,
                    ));
                }
                t = t + 1;
            }
            proof {
                assert(trailing.take(args@.len() - t0) =~= trailing);
            }
            Ok((flag_args, positional))
        },
    }
}

} // verus!
