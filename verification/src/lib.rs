//! `groupls`: answer group-membership queries against Unix-style account
//! databases given as colon-delimited text (a user table and a group table).
//!
//! The crate parses the two file formats tolerantly (comments stripped, blank
//! lines skipped, malformed lines collected as diagnostics rather than
//! aborting a load) and resolves three query forms: all groups, the groups a
//! user belongs to, and the users belonging to a group.

pub mod args;
pub mod error_codes;
pub mod errors;
pub mod load;
pub mod parse_system;
pub mod query;
pub mod records;
pub mod responses;
pub mod text;
