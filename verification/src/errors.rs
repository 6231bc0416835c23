//! Closed error enumerations: per-line parse diagnostics and usage errors.
//! Per-line errors are advisory — a load collects them and keeps going.

use vstd::prelude::*;

verus! {

/// The field of a record that a diagnostic refers to.
#[derive(Clone, Copy, Debug, PartialEq, Eq, Structural)]
pub enum FieldName {
    /// The user name field of a user record.
    UserName,
    /// The numeric user ID field of a user record.
    UserId,
    /// The numeric group ID field of either record kind.
    GroupId,
    /// The group name field of a group record.
    GroupName,
    /// The member list field of a group record.
    MemberList,
}

/// A diagnostic for one malformed line.  Never fatal to a load.
#[derive(Clone, Copy, Debug, PartialEq, Eq, Structural)]
pub enum LineError {
    /// The line has too few colon-separated fields; names the first field
    /// that is absent.
    MissingField(FieldName),
    /// A numeric field is not the decimal text of a 64-bit signed integer.
    InvalidNumber(FieldName),
}

/// Spec-level mirror of a [`UsageError`].
pub enum SpecUsageError {
    TooManyPositionalArguments,
    MissingRequiredObject,
    UnspecifiedObjectKind(Seq<char>),
    UnrecognizedFlag(Seq<char>),
}

/// A defect in the command line, reported before any file is touched.
#[derive(Clone, Debug, PartialEq, Eq)]
pub enum UsageError {
    /// More than one positional argument was given.
    TooManyPositionalArguments,
    /// `-u`/`--user` or `-g`/`--group` was given without an object name.
    MissingRequiredObject,
    /// An object name was given without saying whether it is a user or a
    /// group; carries the name.
    UnspecifiedObjectKind(String),
    /// A flag that the program does not know; carries the flag.
    UnrecognizedFlag(String),
}

impl View for UsageError {
    type V = SpecUsageError;

    open spec fn view(&self) -> SpecUsageError {
        match self {
            UsageError::TooManyPositionalArguments => SpecUsageError::TooManyPositionalArguments,
            UsageError::MissingRequiredObject => SpecUsageError::MissingRequiredObject,
            UsageError::UnspecifiedObjectKind(name) => SpecUsageError::UnspecifiedObjectKind(
                name@,
            ),
            UsageError::UnrecognizedFlag(flag) => SpecUsageError::UnrecognizedFlag(flag@),
        }
    }
}

} // verus!
