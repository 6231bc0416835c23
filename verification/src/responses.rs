//! The result model: the tagged outcome of one query.  Exactly one variant
//! is ever populated — an overview of all groups, a user's groups, a group's
//! users, or a failure carrying a stable exit code and a message.

use vstd::prelude::*;

verus! {

/// Spec-level mirror of a [`Group`].
pub struct SpecGroup {
    pub name: Seq<char>,
    pub id: int,
}

/// A group, as listed in a query result.
#[derive(Clone, Debug, PartialEq, Eq)]
pub struct Group {
    pub name: String,
    pub id: i64,
}

impl View for Group {
    type V = SpecGroup;

    open spec fn view(&self) -> SpecGroup {
        SpecGroup { name: self.name@, id: self.id as int }
    }
}

/// Spec-level mirror of a [`User`].
pub struct SpecUser {
    pub name: Seq<char>,
    pub id: int,
}

/// A user, as listed in a query result.
#[derive(Clone, Debug, PartialEq, Eq)]
pub struct User {
    pub name: String,
    pub id: i64,
}

impl View for User {
    type V = SpecUser;

    open spec fn view(&self) -> SpecUser {
        SpecUser { name: self.name@, id: self.id as int }
    }
}

/// Spec-level mirror of a [`UserQueryResponse`].
pub struct SpecUserQueryResponse {
    pub user_name: Seq<char>,
    pub groups: Seq<SpecGroup>,
}

/// The groups a named user belongs to.
#[derive(Clone, Debug, PartialEq, Eq)]
pub struct UserQueryResponse {
    pub user_name: String,
    pub groups: Vec<Group>,
}

impl View for UserQueryResponse {
    type V = SpecUserQueryResponse;

    open spec fn view(&self) -> SpecUserQueryResponse {
        SpecUserQueryResponse {
            user_name: self.user_name@,
            groups: self.groups@.map_values(|g: Group| g@),
        }
    }
}

/// Spec-level mirror of a [`GroupQueryResponse`].
pub struct SpecGroupQueryResponse {
    pub group_name: Seq<char>,
    pub users: Seq<SpecUser>,
}

/// The users belonging to a named group.
#[derive(Clone, Debug, PartialEq, Eq)]
pub struct GroupQueryResponse {
    pub group_name: String,
    pub users: Vec<User>,
}

impl View for GroupQueryResponse {
    type V = SpecGroupQueryResponse;

    open spec fn view(&self) -> SpecGroupQueryResponse {
        SpecGroupQueryResponse {
            group_name: self.group_name@,
            users: self.users@.map_values(|u: User| u@),
        }
    }
}

/// Spec-level mirror of a [`GroupOverviewQueryResult`].
pub struct SpecGroupOverviewQueryResult {
    pub api_version: Seq<char>,
    pub groups: Seq<SpecGroup>,
}

/// All groups of the system, in group-file order.
#[derive(Clone, Debug, PartialEq, Eq)]
pub struct GroupOverviewQueryResult {
    pub api_version: String,
    pub groups: Vec<Group>,
}

impl View for GroupOverviewQueryResult {
    type V = SpecGroupOverviewQueryResult;

    open spec fn view(&self) -> SpecGroupOverviewQueryResult {
        SpecGroupOverviewQueryResult {
            api_version: self.api_version@,
            groups: self.groups@.map_values(|g: Group| g@),
        }
    }
}

/// Spec-level mirror of a [`GroupQueryResult`].
pub struct SpecGroupQueryResult {
    pub api_version: Seq<char>,
    pub group: SpecGroupQueryResponse,
}

/// The answer to a by-group query.
#[derive(Clone, Debug, PartialEq, Eq)]
pub struct GroupQueryResult {
    pub api_version: String,
    pub group: GroupQueryResponse,
}

impl View for GroupQueryResult {
    type V = SpecGroupQueryResult;

    open spec fn view(&self) -> SpecGroupQueryResult {
        SpecGroupQueryResult { api_version: self.api_version@, group: self.group@ }
    }
}

/// Spec-level mirror of a [`UserQueryResult`].
pub struct SpecUserQueryResult {
    pub api_version: Seq<char>,
    pub user: SpecUserQueryResponse,
}

/// The answer to a by-user query.
#[derive(Clone, Debug, PartialEq, Eq)]
pub struct UserQueryResult {
    pub api_version: String,
    pub user: UserQueryResponse,
}

impl View for UserQueryResult {
    type V = SpecUserQueryResult;

    open spec fn view(&self) -> SpecUserQueryResult {
        SpecUserQueryResult { api_version: self.api_version@, user: self.user@ }
    }
}

/// Spec-level mirror of a [`NoResponseResult`].
pub struct SpecNoResponseResult {
    pub api_version: Seq<char>,
    pub exit_code: int,
    pub error: Seq<char>,
}

/// A failed query: a stable machine-readable exit code and a message.
#[derive(Clone, Debug, PartialEq, Eq)]
pub struct NoResponseResult {
    pub api_version: String,
    pub exit_code: i32,
    pub error: String,
}

impl View for NoResponseResult {
    type V = SpecNoResponseResult;

    open spec fn view(&self) -> SpecNoResponseResult {
        SpecNoResponseResult {
            api_version: self.api_version@,
            exit_code: self.exit_code as int,
            error: self.error@,
        }
    }
}

/// Spec-level mirror of a [`TopLevelResponse`].
pub enum SpecTopLevelResponse {
    GroupOverview(SpecGroupOverviewQueryResult),
    GroupQuery(SpecGroupQueryResult),
    UserQuery(SpecUserQueryResult),
    NoResponse(SpecNoResponseResult),
}

/// The tagged result of one query.
#[derive(Clone, Debug, PartialEq, Eq)]
pub enum TopLevelResponse {
    GroupOverview(GroupOverviewQueryResult),
    GroupQuery(GroupQueryResult),
    UserQuery(UserQueryResult),
    NoResponse(NoResponseResult),
}

impl View for TopLevelResponse {
    type V = SpecTopLevelResponse;

    open spec fn view(&self) -> SpecTopLevelResponse {
        match self {
            TopLevelResponse::GroupOverview(r) => SpecTopLevelResponse::GroupOverview(r@),
            TopLevelResponse::GroupQuery(r) => SpecTopLevelResponse::GroupQuery(r@),
            TopLevelResponse::UserQuery(r) => SpecTopLevelResponse::UserQuery(r@),
            TopLevelResponse::NoResponse(r) => SpecTopLevelResponse::NoResponse(r@),
        }
    }
}

} // verus!
