//! The record model: one entry per valid line of the user table or of the
//! group table.

use vstd::prelude::*;

verus! {

/// Spec-level mirror of a [`PasswdEntry`].
pub struct SpecPasswdEntry {
    pub user: Seq<char>,
    pub user_id: int,
    pub primary_group_id: int,
}

/// An entry of the user table: `name:_:userId:primaryGroupId[:...]`.
#[derive(Clone, Debug, PartialEq, Eq)]
pub struct PasswdEntry {
    pub user: String,
    pub user_id: i64,
    pub primary_group_id: i64,
}

impl View for PasswdEntry {
    type V = SpecPasswdEntry;

    open spec fn view(&self) -> SpecPasswdEntry {
        SpecPasswdEntry {
            user: self.user@,
            user_id: self.user_id as int,
            primary_group_id: self.primary_group_id as int,
        }
    }
}

/// Spec-level mirror of a [`GroupEntry`].
pub struct SpecGroupEntry {
    pub group: Seq<char>,
    pub group_id: int,
    pub usernames: Seq<Seq<char>>,
}

/// An entry of the group table: `name:_:groupId:member,member,...[:...]`.
/// The member list keeps the order of the source line; duplicates are kept.
#[derive(Clone, Debug, PartialEq, Eq)]
pub struct GroupEntry {
    pub group: String,
    pub group_id: i64,
    pub usernames: Vec<String>,
}

impl View for GroupEntry {
    type V = SpecGroupEntry;

    open spec fn view(&self) -> SpecGroupEntry {
        SpecGroupEntry {
            group: self.group@,
            group_id: self.group_id as int,
            usernames: self.usernames@.map_values(|u: String| u@),
        }
    }
}

} // verus!
