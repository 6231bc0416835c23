//! The query resolver: given the outcome of loading the two tables and a
//! typed request, computes the tagged result.
//!
//! Resolution order follows the process contract: the group table first
//! (its read failure wins), then — only for the two lookup forms — the user
//! table.  The overview form never needs the user table, and its result
//! does not depend on it.

use vstd::prelude::*;

use crate::args::{SpecTargetObjects, TargetObjects};
use crate::error_codes;
use crate::records::{GroupEntry, PasswdEntry, SpecGroupEntry, SpecPasswdEntry};
use crate::responses::{
    Group, GroupOverviewQueryResult, GroupQueryResponse, GroupQueryResult, NoResponseResult,
    SpecGroup, SpecGroupOverviewQueryResult, SpecGroupQueryResponse, SpecGroupQueryResult,
    SpecNoResponseResult, SpecTopLevelResponse, SpecUser, SpecUserQueryResponse,
    SpecUserQueryResult, TopLevelResponse, User, UserQueryResponse, UserQueryResult,
};
use crate::text::str_eq;

verus! {

/// The version tag every response carries.
pub open spec fn spec_api_version() -> Seq<char> {
    "1.0"@
}

/// A failure response with the given exit code and message.
pub open spec fn spec_no_response(exit_code: int, error: Seq<char>) -> SpecTopLevelResponse {
    SpecTopLevelResponse::NoResponse(
        SpecNoResponseResult { api_version: spec_api_version(), exit_code, error },
    )
}

/// The `{name, id}` summary of a group record.
pub open spec fn group_summary(g: SpecGroupEntry) -> SpecGroup {
    SpecGroup { name: g.group, id: g.group_id }
}

/// The `{name, id}` summary of a user record.
pub open spec fn user_summary(u: SpecPasswdEntry) -> SpecUser {
    SpecUser { name: u.user, id: u.user_id }
}

/// The overview: every group, in group-file order.
pub open spec fn group_summaries(groups: Seq<SpecGroupEntry>) -> Seq<SpecGroup> {
    groups.map_values(|g: SpecGroupEntry| group_summary(g))
}

/// Whether the group counts the named user among its members: the group is
/// the user's primary group, or the name stands in the member list.
pub open spec fn group_has_user(
    g: SpecGroupEntry,
    user_name: Seq<char>,
    primary_group_id: int,
) -> bool {
    g.group_id == primary_group_id || g.usernames.contains(user_name)
}

/// Whether the user belongs to the group: by primary group or by
/// supplementary membership.
pub open spec fn user_in_group(u: SpecPasswdEntry, g: SpecGroupEntry) -> bool {
    u.primary_group_id == g.group_id || g.usernames.contains(u.user)
}

/// The groups the named user belongs to, in group-file order; a group
/// matching both membership conditions appears once.
pub open spec fn groups_of_user(
    groups: Seq<SpecGroupEntry>,
    user_name: Seq<char>,
    primary_group_id: int,
) -> Seq<SpecGroup>
    decreases groups.len(),
{
    if groups.len() == 0 {
        Seq::empty()
    } else {
        let rest = groups_of_user(groups.drop_last(), user_name, primary_group_id);
        if group_has_user(groups.last(), user_name, primary_group_id) {
            rest.push(group_summary(groups.last()))
        } else {
            rest
        }
    }
}

/// The users belonging to the group, in user-file order; a user matching
/// both membership conditions appears once.
pub open spec fn users_of_group(users: Seq<SpecPasswdEntry>, g: SpecGroupEntry) -> Seq<SpecUser>
    decreases users.len(),
{
    if users.len() == 0 {
        Seq::empty()
    } else {
        let rest = users_of_group(users.drop_last(), g);
        if user_in_group(users.last(), g) {
            rest.push(user_summary(users.last()))
        } else {
            rest
        }
    }
}

/// The first user record carrying the name, if any.
pub open spec fn find_user(users: Seq<SpecPasswdEntry>, name: Seq<char>) -> Option<
    SpecPasswdEntry,
>
    decreases users.len(),
{
    if users.len() == 0 {
        None
    } else if users[0].user == name {
        Some(users[0])
    } else {
        find_user(users.drop_first(), name)
    }
}

/// The first group record carrying the name, if any.
pub open spec fn find_group(groups: Seq<SpecGroupEntry>, name: Seq<char>) -> Option<
    SpecGroupEntry,
>
    decreases groups.len(),
{
    if groups.len() == 0 {
        None
    } else if groups[0].group == name {
        Some(groups[0])
    } else {
        find_group(groups.drop_first(), name)
    }
}

/// The answer to a by-user query once both tables are loaded.
pub open spec fn spec_user_query(
    groups: Seq<SpecGroupEntry>,
    users: Seq<SpecPasswdEntry>,
    user_name: Seq<char>,
) -> SpecTopLevelResponse {
    match find_user(users, user_name) {
        Some(u) => SpecTopLevelResponse::UserQuery(
            SpecUserQueryResult {
                api_version: spec_api_version(),
                user: SpecUserQueryResponse {
                    user_name,
                    groups: groups_of_user(groups, user_name, u.primary_group_id),
                },
            },
        ),
        None => spec_no_response(
            error_codes::USER_NOT_FOUND as int,
            "Could not find user: "@ + user_name,
        ),
    }
}

/// The answer to a by-group query once both tables are loaded.
pub open spec fn spec_group_query(
    groups: Seq<SpecGroupEntry>,
    users: Seq<SpecPasswdEntry>,
    group_name: Seq<char>,
) -> SpecTopLevelResponse {
    match find_group(groups, group_name) {
        Some(g) => SpecTopLevelResponse::GroupQuery(
            SpecGroupQueryResult {
                api_version: spec_api_version(),
                group: SpecGroupQueryResponse { group_name, users: users_of_group(users, g) },
            },
        ),
        None => spec_no_response(
            error_codes::GROUP_NOT_FOUND as int,
            "Could not find group: "@ + group_name,
        ),
    }
}

/// The overview response for a loaded group table.
pub open spec fn spec_overview(groups: Seq<SpecGroupEntry>) -> SpecTopLevelResponse {
    SpecTopLevelResponse::GroupOverview(
        SpecGroupOverviewQueryResult {
            api_version: spec_api_version(),
            groups: group_summaries(groups),
        },
    )
}

/// What `groupls` returns, over the spec views of its inputs.  The group
/// table's read failure wins; the overview form ignores the user table
/// entirely; the two lookup forms then depend on the user table's outcome.
pub open spec fn spec_groupls(
    target: SpecTargetObjects,
    groups_raw: Result<Seq<SpecGroupEntry>, Seq<char>>,
    users_raw: Result<Seq<SpecPasswdEntry>, Seq<char>>,
) -> SpecTopLevelResponse {
    match groups_raw {
        Err(e) => spec_no_response(
            error_codes::READ_GROUPS_ERROR as int,
            "Could not read groups: "@ + e,
        ),
        Ok(groups) => match (target.user_to_list, target.group_to_list) {
            (None, None) => spec_overview(groups),
            (user_opt, group_opt) => match users_raw {
                Err(e) => spec_no_response(
                    error_codes::READ_USERS_ERROR as int,
                    "Could not read users: "@ + e,
                ),
                Ok(users) => match (user_opt, group_opt) {
                    (Some(user_name), _) => spec_user_query(groups, users, user_name),
                    (None, Some(group_name)) => spec_group_query(groups, users, group_name),
                    // Unreachable: the first arm of the outer match took this
                    // shape; repeated only to keep the match total.
                    (None, None) => spec_overview(groups),
                },
            },
        },
    }
}

/// The loaded group table, seen at the spec level.
pub open spec fn groups_load_view(r: Result<Vec<GroupEntry>, String>) -> Result<
    Seq<SpecGroupEntry>,
    Seq<char>,
> {
    match r {
        Ok(v) => Ok(v@.map_values(|g: GroupEntry| g@)),
        Err(e) => Err(e@),
    }
}

/// The loaded user table, seen at the spec level.
pub open spec fn users_load_view(r: Result<Vec<PasswdEntry>, String>) -> Result<
    Seq<SpecPasswdEntry>,
    Seq<char>,
> {
    match r {
        Ok(v) => Ok(v@.map_values(|u: PasswdEntry| u@)),
        Err(e) => Err(e@),
    }
}

/// Whether resolving this request will need the user table at all.  The
/// overview form does not: a caller may skip reading the user file then.
pub fn user_file_needed(target_objects: &TargetObjects) -> (r: bool)
    ensures
        r == !(target_objects@.user_to_list is None && target_objects@.group_to_list is None),
{
    target_objects.user_to_list.is_some() || target_objects.group_to_list.is_some()
}

/// Whether the member list holds the name.
fn members_contain(members: &Vec<String>, name: &str) -> (r: bool)
    ensures
        r == members@.map_values(|m: String| m@).contains(name@),
{
    let ghost mv = members@.map_values(|m: String| m@);
    let mut i: usize = 0;
    while i < members.len()
        invariant
            i <= members.len(),
            mv == members@.map_values(|m: String| m@),
            forall|j: int| 0 <= j < i ==> mv[j] != name@,
        decreases members.len() - i,
    {
        if str_eq(members[i].as_str(), name) {
            proof {
                assert(mv[i as int] == name@);
            }
            return true;
        }
        i = i + 1;
    }
    proof {
        assert(!mv.contains(name@)) by {
            if mv.contains(name@) {
                let j = choose|j: int| 0 <= j < mv.len() && mv[j] == name@;
                assert(mv[j] != name@);
            }
        }
    }
    false
}

/// A forward scan that stops at the first matching user name has found what
/// `find_user` denotes.
proof fn lemma_find_user_at(users: Seq<SpecPasswdEntry>, name: Seq<char>, i: int)
    requires
        0 <= i <= users.len(),
        forall|j: int| 0 <= j < i ==> users[j].user != name,
        i == users.len() || users[i].user == name,
    ensures
        find_user(users, name) == if i == users.len() {
            Option::<SpecPasswdEntry>::None
        } else {
            Option::<SpecPasswdEntry>::Some(users[i])
        },
    decreases i,
{
    if i == 0 {
    } else {
        assert(users[0].user != name);
        lemma_find_user_at(users.drop_first(), name, i - 1);
    }
}

/// A forward scan that stops at the first matching group name has found
/// what `find_group` denotes.
proof fn lemma_find_group_at(groups: Seq<SpecGroupEntry>, name: Seq<char>, i: int)
    requires
        0 <= i <= groups.len(),
        forall|j: int| 0 <= j < i ==> groups[j].group != name,
        i == groups.len() || groups[i].group == name,
    ensures
        find_group(groups, name) == if i == groups.len() {
            Option::<SpecGroupEntry>::None
        } else {
            Option::<SpecGroupEntry>::Some(groups[i])
        },
    decreases i,
{
    if i == 0 {
    } else {
        assert(groups[0].group != name);
        lemma_find_group_at(groups.drop_first(), name, i - 1);
    }
}

/// The index of the first user record carrying the name.
fn find_user_index(users: &Vec<PasswdEntry>, name: &str) -> (r: Option<usize>)
    ensures
        (match r {
            Some(i) => i < users.len() && find_user(
                users@.map_values(|u: PasswdEntry| u@),
                name@,
            ) == Some(users@.map_values(|u: PasswdEntry| u@)[i as int]),
            None => find_user(users@.map_values(|u: PasswdEntry| u@), name@) is None,
        }),
{
    let ghost uv = users@.map_values(|u: PasswdEntry| u@);
    let mut i: usize = 0;
    while i < users.len()
        invariant
            i <= users.len(),
            uv == users@.map_values(|u: PasswdEntry| u@),
            forall|j: int| 0 <= j < i ==> uv[j].user != name@,
        decreases users.len() - i,
    {
        if str_eq(users[i].user.as_str(), name) {
            proof {
                lemma_find_user_at(uv, name@, i as int);
            }
            return Some(i);
        }
        i = i + 1;
    }
    proof {
        lemma_find_user_at(uv, name@, uv.len() as int);
    }
    None
}

/// The index of the first group record carrying the name.
fn find_group_index(groups: &Vec<GroupEntry>, name: &str) -> (r: Option<usize>)
    ensures
        (match r {
            Some(i) => i < groups.len() && find_group(
                groups@.map_values(|g: GroupEntry| g@),
                name@,
            ) == Some(groups@.map_values(|g: GroupEntry| g@)[i as int]),
            None => find_group(groups@.map_values(|g: GroupEntry| g@), name@) is None,
        }),
{
    let ghost gv = groups@.map_values(|g: GroupEntry| g@);
    let mut i: usize = 0;
    while i < groups.len()
        invariant
            i <= groups.len(),
            gv == groups@.map_values(|g: GroupEntry| g@),
            forall|j: int| 0 <= j < i ==> gv[j].group != name@,
        decreases groups.len() - i,
    {
        if str_eq(groups[i].group.as_str(), name) {
            proof {
                lemma_find_group_at(gv, name@, i as int);
            }
            return Some(i);
        }
        i = i + 1;
    }
    proof {
        lemma_find_group_at(gv, name@, gv.len() as int);
    }
    None
}

/// Collects the `{name, id}` summaries of every group, in file order.
fn collect_group_summaries(groups: &Vec<GroupEntry>) -> (r: Vec<Group>)
    ensures
        r@.map_values(|g: Group| g@) == group_summaries(groups@.map_values(|g: GroupEntry| g@)),
{
    let ghost gv = groups@.map_values(|g: GroupEntry| g@);
    let mut out: Vec<Group> = Vec::new();
    let mut i: usize = 0;
    proof {
        assert(out@.map_values(|g: Group| g@) =~= group_summaries(gv.take(0)));
    }
    while i < groups.len()
        invariant
            i <= groups.len(),
            gv == groups@.map_values(|g: GroupEntry| g@),
            out@.map_values(|g: Group| g@) == group_summaries(gv.take(i as int)),
        decreases groups.len() - i,
    {
        let ghost summaries = out@.map_values(|g: Group| g@);
        out.push(Group { name: groups[i].group.clone(), id: groups[i].group_id });
        proof {
            assert(out@.map_values(|g: Group| g@) =~= summaries.push(group_summary(gv[i as int])));
            assert(summaries.push(group_summary(gv[i as int])) =~= group_summaries(gv.take(i + 1)));
        }
        i = i + 1;
    }
    proof {
        assert(gv.take(groups@.len() as int) =~= gv);
    }
    out
}

/// Collects the groups the named user belongs to, in group-file order.
fn collect_user_groups(groups: &Vec<GroupEntry>, user_name: &str, primary_group_id: i64) -> (r:
    Vec<Group>)
    ensures
        r@.map_values(|g: Group| g@) == groups_of_user(
            groups@.map_values(|g: GroupEntry| g@),
            user_name@,
            primary_group_id as int,
        ),
{
    let ghost gv = groups@.map_values(|g: GroupEntry| g@);
    let mut out: Vec<Group> = Vec::new();
    let mut i: usize = 0;
    proof {
        assert(gv.take(0) =~= Seq::<SpecGroupEntry>::empty());
        assert(out@.map_values(|g: Group| g@) =~= groups_of_user(
            gv.take(0),
            user_name@,
            primary_group_id as int,
        ));
    }
    while i < groups.len()
        invariant
            i <= groups.len(),
            gv == groups@.map_values(|g: GroupEntry| g@),
            out@.map_values(|g: Group| g@) == groups_of_user(
                gv.take(i as int),
                user_name@,
                primary_group_id as int,
            ),
        decreases groups.len() - i,
    {
        let ghost selected = out@.map_values(|g: Group| g@);
        proof {
            assert(gv.take(i + 1).drop_last() =~= gv.take(i as int));
            assert(gv.take(i + 1).last() == gv[i as int]);
        }
        let g = &groups[i];
        if g.group_id == primary_group_id || members_contain(&g.usernames, user_name) {
            out.push(Group { name: g.group.clone(), id: g.group_id });
            proof {
                assert(out@.map_values(|g: Group| g@) =~= selected.push(
                    group_summary(gv[i as int]),
                ));
            }
        }
        i = i + 1;
    }
    proof {
        assert(gv.take(groups@.len() as int) =~= gv);
    }
    out
}

/// Collects the users belonging to the group, in user-file order.
fn collect_group_users(users: &Vec<PasswdEntry>, group: &GroupEntry) -> (r: Vec<User>)
    ensures
        r@.map_values(|u: User| u@) == users_of_group(
            users@.map_values(|u: PasswdEntry| u@),
            group@,
        ),
{
    let ghost uv = users@.map_values(|u: PasswdEntry| u@);
    let mut out: Vec<User> = Vec::new();
    let mut i: usize = 0;
    proof {
        assert(uv.take(0) =~= Seq::<SpecPasswdEntry>::empty());
        assert(out@.map_values(|u: User| u@) =~= users_of_group(uv.take(0), group@));
    }
    while i < users.len()
        invariant
            i <= users.len(),
            uv == users@.map_values(|u: PasswdEntry| u@),
            out@.map_values(|u: User| u@) == users_of_group(uv.take(i as int), group@),
        decreases users.len() - i,
    {
        let ghost selected = out@.map_values(|u: User| u@);
        proof {
            assert(uv.take(i + 1).drop_last() =~= uv.take(i as int));
            assert(uv.take(i + 1).last() == uv[i as int]);
        }
        let u = &users[i];
        if u.primary_group_id == group.group_id || members_contain(&group.usernames, u.user.as_str())
             {
            out.push(User { name: u.user.clone(), id: u.user_id });
            proof {
                assert(out@.map_values(|u: User| u@) =~= selected.push(user_summary(uv[i as int])));
            }
        }
        i = i + 1;
    }
    proof {
        assert(uv.take(users@.len() as int) =~= uv);
    }
    out
}

/// Resolves one query against the outcome of loading the two tables.
///
/// The caller hands over whatever its reads produced: `Ok` with the loaded
/// records, or `Err` with the read failure's description.  For the overview
/// form the user-table argument is never consulted, so a caller that asked
/// `user_file_needed` first may pass anything there.
pub fn groupls(
    target_objects: TargetObjects,
    groups_raw: Result<Vec<GroupEntry>, String>,
    users_raw: Result<Vec<PasswdEntry>, String>,
) -> (r: TopLevelResponse)
    ensures
        r@ == spec_groupls(
            target_objects@,
            groups_load_view(groups_raw),
            users_load_view(users_raw),
        ),
{
    let groups = match groups_raw {
        Err(error) => {
            return TopLevelResponse::NoResponse(
                NoResponseResult {
                    api_version: String::from_str("1.0"),
                    exit_code: error_codes::READ_GROUPS_ERROR,
                    error: String::from_str("Could not read groups: ").concat(error.as_str()),
                },
            );
        },
        Ok(groups) => groups,
    };
    match (&target_objects.user_to_list, &target_objects.group_to_list) {
        (None, None) => {
            let summaries = collect_group_summaries(&groups);
            TopLevelResponse::GroupOverview(
                GroupOverviewQueryResult {
                    api_version: String::from_str("1.0"),
                    groups: summaries,
                },
            )
        },
        (Some(user_name), _) => {
            let users = match users_raw {
                Err(error) => {
                    return TopLevelResponse::NoResponse(
                        NoResponseResult {
                            api_version: String::from_str("1.0"),
                            exit_code: error_codes::READ_USERS_ERROR,
                            error: String::from_str("Could not read users: ").concat(
                                error.as_str(),
                            ),
                        },
                    );
                },
                Ok(users) => users,
            };
            match find_user_index(&users, user_name.as_str()) {
                Some(found) => {
                    let response_groups = collect_user_groups(
                        &groups,
                        user_name.as_str(),
                        users[found].primary_group_id,
                    );
                    TopLevelResponse::UserQuery(
                        UserQueryResult {
                            api_version: String::from_str("1.0"),
                            user: UserQueryResponse {
                                user_name: user_name.clone(),
                                groups: response_groups,
                            },
                        },
                    )
                },
                None => TopLevelResponse::NoResponse(
                    NoResponseResult {
                        api_version: String::from_str("1.0"),
                        exit_code: error_codes::USER_NOT_FOUND,
                        error: String::from_str("Could not find user: ").concat(
                            user_name.as_str(),
                        ),
                    },
                ),
            }
        },
        (None, Some(group_name)) => {
            let users = match users_raw {
                Err(error) => {
                    return TopLevelResponse::NoResponse(
                        NoResponseResult {
                            api_version: String::from_str("1.0"),
                            exit_code: error_codes::READ_USERS_ERROR,
                            error: String::from_str("Could not read users: ").concat(
                                error.as_str(),
                            ),
                        },
                    );
                },
                Ok(users) => users,
            };
            match find_group_index(&groups, group_name.as_str()) {
                Some(found) => {
                    let response_users = collect_group_users(&users, &groups[found]);
                    TopLevelResponse::GroupQuery(
                        GroupQueryResult {
                            api_version: String::from_str("1.0"),
                            group: GroupQueryResponse {
                                group_name: group_name.clone(),
                                users: response_users,
                            },
                        },
                    )
                },
                None => TopLevelResponse::NoResponse(
                    NoResponseResult {
                        api_version: String::from_str("1.0"),
                        exit_code: error_codes::GROUP_NOT_FOUND,
                        error: String::from_str("Could not find group: ").concat(
                            group_name.as_str(),
                        ),
                    },
                ),
            }
        },
    }
}

/// The overview form never consults the user table: whatever two outcomes
/// reading it may have — including a failure — the result is the same.
pub proof fn lemma_overview_ignores_user_load(
    target: SpecTargetObjects,
    groups_raw: Result<Seq<SpecGroupEntry>, Seq<char>>,
    users_a: Result<Seq<SpecPasswdEntry>, Seq<char>>,
    users_b: Result<Seq<SpecPasswdEntry>, Seq<char>>,
)
    requires
        target.user_to_list is None,
        target.group_to_list is None,
    ensures
        spec_groupls(target, groups_raw, users_a) == spec_groupls(target, groups_raw, users_b),
{
}

/// A by-user query for a name that no user record carries yields the
/// user-not-found failure — never an empty group list.
pub proof fn lemma_user_not_found(
    target: SpecTargetObjects,
    groups: Seq<SpecGroupEntry>,
    users: Seq<SpecPasswdEntry>,
    user_name: Seq<char>,
)
    requires
        target.user_to_list == Some(user_name),
        forall|i: int| 0 <= i < users.len() ==> users[i].user != user_name,
    ensures
        spec_groupls(target, Ok(groups), Ok(users)) == spec_no_response(
            error_codes::USER_NOT_FOUND as int,
            "Could not find user: "@ + user_name,
        ),
{
    lemma_find_user_at(users, user_name, users.len() as int);
}

/// A by-group query for a name that no group record carries yields the
/// group-not-found failure.
pub proof fn lemma_group_not_found(
    target: SpecTargetObjects,
    groups: Seq<SpecGroupEntry>,
    users: Seq<SpecPasswdEntry>,
    group_name: Seq<char>,
)
    requires
        target.user_to_list is None,
        target.group_to_list == Some(group_name),
        forall|i: int| 0 <= i < groups.len() ==> groups[i].group != group_name,
    ensures
        spec_groupls(target, Ok(groups), Ok(users)) == spec_no_response(
            error_codes::GROUP_NOT_FOUND as int,
            "Could not find group: "@ + group_name,
        ),
{
    lemma_find_group_at(groups, group_name, groups.len() as int);
}

} // verus!
