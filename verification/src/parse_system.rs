//! The line sanitizer and the record parser for the two system table
//! formats.
//!
//! A raw line is first sanitized: everything from the first `'#'` onward is
//! discarded and surrounding ASCII whitespace is trimmed.  A line whose
//! sanitized form is empty is skippable.  A sanitized, non-empty line is then
//! split on `':'` and converted into a [`PasswdEntry`] or a [`GroupEntry`];
//! a line with too few fields or with an unparseable numeric field yields a
//! [`LineError`] instead.

use vstd::prelude::*;

use crate::errors::{FieldName, LineError};
use crate::records::{GroupEntry, PasswdEntry, SpecGroupEntry, SpecPasswdEntry};
use crate::text::{
    is_i64_text, i64_text_val, parse_i64, sanitize, split_on, split_str, strip_comment,
    strip_comment_str, trim, trim_str,
};

verus! {

/// What `parse_passwd_line` returns for a given line: the record, or the
/// diagnostic for the first defect, with missing fields reported before
/// unparseable numbers.
pub open spec fn spec_parse_passwd_line(line: Seq<char>) -> Result<SpecPasswdEntry, LineError> {
    let fields = split_on(line, ':');
    if fields.len() < 3 {
        Err(LineError::MissingField(FieldName::UserId))
    } else if fields.len() < 4 {
        Err(LineError::MissingField(FieldName::GroupId))
    } else if !is_i64_text(fields[2]) {
        Err(LineError::InvalidNumber(FieldName::UserId))
    } else if !is_i64_text(fields[3]) {
        Err(LineError::InvalidNumber(FieldName::GroupId))
    } else {
        Ok(
            SpecPasswdEntry {
                user: trim(fields[0]),
                user_id: i64_text_val(fields[2]),
                primary_group_id: i64_text_val(fields[3]),
            },
        )
    }
}

/// The member names carried by the fourth field of a group line: each
/// comma-separated token is trimmed, and tokens that are then empty are
/// dropped.  Order and duplicates are kept.
pub open spec fn member_list(parts: Seq<Seq<char>>) -> Seq<Seq<char>>
    decreases parts.len(),
{
    if parts.len() == 0 {
        Seq::empty()
    } else {
        let rest = member_list(parts.drop_last());
        let t = trim(parts.last());
        if t.len() > 0 {
            rest.push(t)
        } else {
            rest
        }
    }
}

pub open spec fn spec_members(field: Seq<char>) -> Seq<Seq<char>> {
    member_list(split_on(field, ','))
}

/// What `parse_group_line` returns for a given line.
pub open spec fn spec_parse_group_line(line: Seq<char>) -> Result<SpecGroupEntry, LineError> {
    let fields = split_on(line, ':');
    if fields.len() < 3 {
        Err(LineError::MissingField(FieldName::GroupId))
    } else if fields.len() < 4 {
        Err(LineError::MissingField(FieldName::MemberList))
    } else if !is_i64_text(fields[2]) {
        Err(LineError::InvalidNumber(FieldName::GroupId))
    } else {
        Ok(
            SpecGroupEntry {
                group: fields[0],
                group_id: i64_text_val(fields[2]),
                usernames: spec_members(fields[3]),
            },
        )
    }
}

/// The result of parsing a user line, seen at the spec level.
pub open spec fn passwd_result_view(r: Result<PasswdEntry, LineError>) -> Result<
    SpecPasswdEntry,
    LineError,
> {
    match r {
        Ok(e) => Ok(e@),
        Err(x) => Err(x),
    }
}

/// The result of parsing a group line, seen at the spec level.
pub open spec fn group_result_view(r: Result<GroupEntry, LineError>) -> Result<
    SpecGroupEntry,
    LineError,
> {
    match r {
        Ok(e) => Ok(e@),
        Err(x) => Err(x),
    }
}

/// A user line with fewer than four colon-separated fields never yields a
/// record: the parser reports the first absent field.  Splitting always
/// yields at least one field, so the name field is never the absent one;
/// with fewer than three fields the user ID is missing, with exactly three
/// the group ID is.
pub proof fn lemma_user_missing_field(line: Seq<char>)
    requires
        split_on(line, ':').len() < 4,
    ensures
        spec_parse_passwd_line(line) == Err::<SpecPasswdEntry, LineError>(
            LineError::MissingField(
                if split_on(line, ':').len() < 3 {
                    FieldName::UserId
                } else {
                    FieldName::GroupId
                },
            ),
        ),
{
}

/// A group line with fewer than four colon-separated fields never yields a
/// record: with fewer than three fields the group ID is missing, with
/// exactly three the member list is.
pub proof fn lemma_group_missing_field(line: Seq<char>)
    requires
        split_on(line, ':').len() < 4,
    ensures
        spec_parse_group_line(line) == Err::<SpecGroupEntry, LineError>(
            LineError::MissingField(
                if split_on(line, ':').len() < 3 {
                    FieldName::GroupId
                } else {
                    FieldName::MemberList
                },
            ),
        ),
{
}

/// The prefix of a line before its `'#'` comment, the comment discarded.
pub fn remove_comment_from_line<'a>(possibly_commented_line: &'a str) -> (r: &'a str)
    ensures
        r@ == strip_comment(possibly_commented_line@),
{
    strip_comment_str(possibly_commented_line)
}

/// The sanitized form of a raw line: comment removed, whitespace trimmed.
/// The line is skippable exactly when the result is empty.
pub fn sanitize_line<'a>(raw_line: &'a str) -> (r: &'a str)
    ensures
        r@ == sanitize(raw_line@),
{
    trim_str(strip_comment_str(raw_line))
}

/// Parses one line of the user table.
pub fn parse_passwd_line(unparsed_line: &str) -> (r: Result<PasswdEntry, LineError>)
    ensures
        passwd_result_view(r) == spec_parse_passwd_line(unparsed_line@),
{
    let fields = split_str(unparsed_line, ':');
    let ghost fv = fields@.map_values(|f: String| f@);
    if fields.len() < 3 {
        return Err(LineError::MissingField(FieldName::UserId));
    }
    if fields.len() < 4 {
        return Err(LineError::MissingField(FieldName::GroupId));
    }
    let user_id = match parse_i64(fields[2].as_str()) {
        Some(v) => v,
        None => {
            return Err(LineError::InvalidNumber(FieldName::UserId));
        },
    };
    let primary_group_id = match parse_i64(fields[3].as_str()) {
        Some(v) => v,
        None => {
            return Err(LineError::InvalidNumber(FieldName::GroupId));
        },
    };
    let user = trim_str(fields[0].as_str()).to_owned();
    Ok(PasswdEntry { user, user_id, primary_group_id })
}

/// Collects the member names of a group line's member list field.
pub fn parse_members(field: &str) -> (r: Vec<String>)
    ensures
        r@.map_values(|u: String| u@) == spec_members(field@),
{
    let parts = split_str(field, ',');
    let ghost pv = parts@.map_values(|f: String| f@);
    let mut out: Vec<String> = Vec::new();
    let mut i: usize = 0;
    proof {
        assert(pv.take(0) =~= Seq::<Seq<char>>::empty());
        assert(out@.map_values(|u: String| u@) =~= member_list(pv.take(0)));
    }
    while i < parts.len()
        invariant
            i <= parts.len(),
            pv == parts@.map_values(|f: String| f@),
            out@.map_values(|u: String| u@) == member_list(pv.take(i as int)),
        decreases parts.len() - i,
    {
        let ghost members = out@.map_values(|u: String| u@);
        proof {
            assert(pv.take(i + 1).drop_last() =~= pv.take(i as int));
            assert(pv.take(i + 1).last() == pv[i as int]);
        }
        let t = trim_str(parts[i].as_str());
        if !t.is_empty() {
            out.push(t.to_owned());
            proof {
                assert(out@.map_values(|u: String| u@) =~= members.push(trim(pv[i as int])));
            }
        }
        i = i + 1;
    }
    proof {
        assert(pv.take(parts@.len() as int) =~= pv);
    }
    out
}

/// Parses one line of the group table.
pub fn parse_group_line(unparsed_line: &str) -> (r: Result<GroupEntry, LineError>)
    ensures
        group_result_view(r) == spec_parse_group_line(unparsed_line@),
{
    let fields = split_str(unparsed_line, ':');
    let ghost fv = fields@.map_values(|f: String| f@);
    if fields.len() < 3 {
        return Err(LineError::MissingField(FieldName::GroupId));
    }
    if fields.len() < 4 {
        return Err(LineError::MissingField(FieldName::MemberList));
    }
    let group_id = match parse_i64(fields[2].as_str()) {
        Some(v) => v,
        None => {
            return Err(LineError::InvalidNumber(FieldName::GroupId));
        },
    };
    let usernames = parse_members(fields[3].as_str());
    let group = fields[0].clone();
    Ok(GroupEntry { group, group_id, usernames })
}

} // verus!
