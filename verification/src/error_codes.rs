//! The stable exit codes of the process-level contract.  Each failure kind
//! has its own value; the rendering layer passes them through unchanged.

use vstd::prelude::*;

verus! {

/// The command line could not be understood.
pub const INVALID_USAGE: i32 = 10;

/// The group table could not be read.
pub const READ_GROUPS_ERROR: i32 = 30;

/// The user table could not be read (only reported after the group table
/// was read successfully).
pub const READ_USERS_ERROR: i32 = 40;

/// The named group does not exist.
pub const GROUP_NOT_FOUND: i32 = 100;

/// The named user does not exist.
pub const USER_NOT_FOUND: i32 = 101;

} // verus!
