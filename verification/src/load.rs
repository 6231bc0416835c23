//! The file loader: sanitize every line of a source, skip the blank ones,
//! parse the rest, and partition the outcomes into records and per-line
//! diagnostics, both in input order.  Malformed lines never abort a load.
//!
//! Reading the bytes of a source is not this crate's business: a caller
//! hands the loader the lines it obtained, and file-level failures are
//! handled by the query resolver as a whole-operation error.

use vstd::prelude::*;

use crate::errors::LineError;
use crate::parse_system::{
    parse_group_line, parse_passwd_line, sanitize_line, spec_parse_group_line,
    spec_parse_passwd_line,
};
use crate::records::{GroupEntry, PasswdEntry, SpecGroupEntry, SpecPasswdEntry};
use crate::text::sanitize;

verus! {

/// What one raw line contributes to a load: nothing when it is blank or
/// comment-only, otherwise the outcome of parsing its sanitized form.
pub open spec fn line_outcome<T>(
    parse: spec_fn(Seq<char>) -> Result<T, LineError>,
    raw: Seq<char>,
) -> Option<Result<T, LineError>> {
    let s = sanitize(raw);
    if s.len() == 0 {
        None
    } else {
        Some(parse(s))
    }
}

/// The records of the lines that parse, in input order.
pub open spec fn loaded_records<T>(
    lines: Seq<Seq<char>>,
    parse: spec_fn(Seq<char>) -> Result<T, LineError>,
) -> Seq<T>
    decreases lines.len(),
{
    if lines.len() == 0 {
        Seq::empty()
    } else {
        let rest = loaded_records(lines.drop_last(), parse);
        match line_outcome(parse, lines.last()) {
            Some(Ok(e)) => rest.push(e),
            _ => rest,
        }
    }
}

/// The diagnostics of the lines that do not parse, in input order.
pub open spec fn load_errors<T>(
    lines: Seq<Seq<char>>,
    parse: spec_fn(Seq<char>) -> Result<T, LineError>,
) -> Seq<LineError>
    decreases lines.len(),
{
    if lines.len() == 0 {
        Seq::empty()
    } else {
        let rest = load_errors(lines.drop_last(), parse);
        match line_outcome(parse, lines.last()) {
            Some(Err(x)) => rest.push(x),
            _ => rest,
        }
    }
}

/// The user-table parser, as a value.
pub open spec fn passwd_parser() -> spec_fn(Seq<char>) -> Result<SpecPasswdEntry, LineError> {
    |line: Seq<char>| spec_parse_passwd_line(line)
}

/// The group-table parser, as a value.
pub open spec fn group_parser() -> spec_fn(Seq<char>) -> Result<SpecGroupEntry, LineError> {
    |line: Seq<char>| spec_parse_group_line(line)
}

/// Loads the user table from its raw lines.
pub fn load_users(lines: &Vec<String>) -> (r: (Vec<PasswdEntry>, Vec<LineError>))
    ensures
        r.0@.map_values(|e: PasswdEntry| e@) == loaded_records(
            lines@.map_values(|l: String| l@),
            passwd_parser(),
        ),
        r.1@ == load_errors(lines@.map_values(|l: String| l@), passwd_parser()),
{
    let ghost lv = lines@.map_values(|l: String| l@);
    let mut records: Vec<PasswdEntry> = Vec::new();
    let mut errors: Vec<LineError> = Vec::new();
    let mut i: usize = 0;
    proof {
        assert(lv.take(0) =~= Seq::<Seq<char>>::empty());
        assert(records@.map_values(|e: PasswdEntry| e@) =~= loaded_records(
            lv.take(0),
            passwd_parser(),
        ));
    }
    while i < lines.len()
        invariant
            i <= lines.len(),
            lv == lines@.map_values(|l: String| l@),
            records@.map_values(|e: PasswdEntry| e@) == loaded_records(
                lv.take(i as int),
                passwd_parser(),
            ),
            errors@ == load_errors(lv.take(i as int), passwd_parser()),
        decreases lines.len() - i,
    {
        let ghost recs = records@.map_values(|e: PasswdEntry| e@);
        proof {
            assert(lv.take(i + 1).drop_last() =~= lv.take(i as int));
            assert(lv.take(i + 1).last() == lv[i as int]);
        }
        let sanitized = sanitize_line(lines[i].as_str());
        if !sanitized.is_empty() {
            match parse_passwd_line(sanitized) {
                Ok(entry) => {
                    records.push(entry);
                    proof {
                        assert(records@.map_values(|e: PasswdEntry| e@) =~= recs.push(
                            records@.last()@,
                        ));
                    }
                },
                Err(diag) => {
                    errors.push(diag);
                },
            }
        }
        i = i + 1;
    }
    proof {
        assert(lv.take(lines@.len() as int) =~= lv);
    }
    (records, errors)
}

/// Loads the group table from its raw lines.
pub fn load_groups(lines: &Vec<String>) -> (r: (Vec<GroupEntry>, Vec<LineError>))
    ensures
        r.0@.map_values(|e: GroupEntry| e@) == loaded_records(
            lines@.map_values(|l: String| l@),
            group_parser(),
        ),
        r.1@ == load_errors(lines@.map_values(|l: String| l@), group_parser()),
{
    let ghost lv = lines@.map_values(|l: String| l@);
    let mut records: Vec<GroupEntry> = Vec::new();
    let mut errors: Vec<LineError> = Vec::new();
    let mut i: usize = 0;
    proof {
        assert(lv.take(0) =~= Seq::<Seq<char>>::empty());
        assert(records@.map_values(|e: GroupEntry| e@) =~= loaded_records(
            lv.take(0),
            group_parser(),
        ));
    }
    while i < lines.len()
        invariant
            i <= lines.len(),
            lv == lines@.map_values(|l: String| l@),
            records@.map_values(|e: GroupEntry| e@) == loaded_records(
                lv.take(i as int),
                group_parser(),
            ),
            errors@ == load_errors(lv.take(i as int), group_parser()),
        decreases lines.len() - i,
    {
        let ghost recs = records@.map_values(|e: GroupEntry| e@);
        proof {
            assert(lv.take(i + 1).drop_last() =~= lv.take(i as int));
            assert(lv.take(i + 1).last() == lv[i as int]);
        }
        let sanitized = sanitize_line(lines[i].as_str());
        if !sanitized.is_empty() {
            match parse_group_line(sanitized) {
                Ok(entry) => {
                    records.push(entry);
                    proof {
                        assert(records@.map_values(|e: GroupEntry| e@) =~= recs.push(
                            records@.last()@,
                        ));
                    }
                },
                Err(diag) => {
                    errors.push(diag);
                },
            }
        }
        i = i + 1;
    }
    proof {
        assert(lv.take(lines@.len() as int) =~= lv);
    }
    (records, errors)
}

/// A line that sanitizes to nothing — whitespace-only, comment-only or
/// empty — contributes neither a record nor a diagnostic to a load,
/// wherever in the file it stands.
pub proof fn lemma_skippable_line_ignored<T>(
    lines: Seq<Seq<char>>,
    k: int,
    line: Seq<char>,
    parse: spec_fn(Seq<char>) -> Result<T, LineError>,
)
    requires
        0 <= k <= lines.len(),
        sanitize(line).len() == 0,
    ensures
        loaded_records(lines.insert(k, line), parse) == loaded_records(lines, parse),
        load_errors(lines.insert(k, line), parse) == load_errors(lines, parse),
    decreases lines.len(),
{
    let with_line = lines.insert(k, line);
    if k == lines.len() {
        assert(with_line.drop_last() =~= lines);
        assert(with_line.last() == line);
    } else {
        assert(with_line.drop_last() =~= lines.drop_last().insert(k, line));
        assert(with_line.last() == lines.last());
        lemma_skippable_line_ignored(lines.drop_last(), k, line, parse);
    }
}

/// Loading has no hidden state: the records and the diagnostics are a pure
/// function of the lines, so two loads of the same lines agree exactly.
pub proof fn lemma_load_deterministic<T>(
    lines: Seq<Seq<char>>,
    parse: spec_fn(Seq<char>) -> Result<T, LineError>,
    first: (Seq<T>, Seq<LineError>),
    second: (Seq<T>, Seq<LineError>),
)
    requires
        first == (loaded_records(lines, parse), load_errors(lines, parse)),
        second == (loaded_records(lines, parse), load_errors(lines, parse)),
    ensures
        first == second,
{
}

} // verus!
