use groupls::args::TargetObjects;
use groupls::error_codes;
use groupls::load::load_users;
use groupls::query::{groupls, user_file_needed};
use groupls::records::{GroupEntry, PasswdEntry};
use groupls::responses::TopLevelResponse;

fn group(name: &str, id: i64, members: &[&str]) -> GroupEntry {
    GroupEntry {
        group: name.to_string(),
        group_id: id,
        usernames: members.iter().map(|m| m.to_string()).collect(),
    }
}

fn user(name: &str, uid: i64, gid: i64) -> PasswdEntry {
    PasswdEntry { user: name.to_string(), user_id: uid, primary_group_id: gid }
}

fn overview_request() -> TargetObjects {
    TargetObjects { user_to_list: None, group_to_list: None }
}

fn by_user(name: &str) -> TargetObjects {
    TargetObjects { user_to_list: Some(name.to_string()), group_to_list: None }
}

fn by_group(name: &str) -> TargetObjects {
    TargetObjects { user_to_list: None, group_to_list: Some(name.to_string()) }
}

#[test]
fn overview_lists_all_groups_in_file_order() {
    let groups = vec![group("admin", 10, &["alice"]), group("dev", 20, &[])];
    let response = groupls(overview_request(), Ok(groups), Ok(vec![]));
    match response {
        TopLevelResponse::GroupOverview(result) => {
            assert_eq!(result.api_version, "1.0");
            let names: Vec<&str> = result.groups.iter().map(|g| g.name.as_str()).collect();
            assert_eq!(names, vec!["admin", "dev"]);
            assert_eq!(result.groups[0].id, 10);
            assert_eq!(result.groups[1].id, 20);
        }
        _ => panic!("expected an overview response"),
    }
}

#[test]
fn overview_succeeds_even_when_user_read_failed() {
    let groups = vec![group("admin", 10, &[])];
    let response = groupls(
        overview_request(),
        Ok(groups),
        Err("simulated user file read failure".to_string()),
    );
    assert!(matches!(response, TopLevelResponse::GroupOverview(_)));
}

#[test]
fn overview_does_not_need_the_user_file() {
    assert!(!user_file_needed(&overview_request()));
    assert!(user_file_needed(&by_user("alice")));
    assert!(user_file_needed(&by_group("admin")));
}

#[test]
fn by_user_joins_primary_and_supplementary_in_file_order() {
    let groups = vec![group("admin", 10, &["alice"]), group("dev", 20, &[])];
    let users = vec![user("alice", 1, 20)];
    let response = groupls(by_user("alice"), Ok(groups), Ok(users));
    match response {
        TopLevelResponse::UserQuery(result) => {
            assert_eq!(result.user.user_name, "alice");
            let names: Vec<&str> = result.user.groups.iter().map(|g| g.name.as_str()).collect();
            assert_eq!(names, vec!["admin", "dev"]);
        }
        _ => panic!("expected a user query response"),
    }
}

#[test]
fn by_user_group_matching_both_conditions_appears_once() {
    let groups = vec![group("admin", 10, &["alice"])];
    let users = vec![user("alice", 1, 10)];
    let response = groupls(by_user("alice"), Ok(groups), Ok(users));
    match response {
        TopLevelResponse::UserQuery(result) => {
            assert_eq!(result.user.groups.len(), 1);
            assert_eq!(result.user.groups[0].name, "admin");
        }
        _ => panic!("expected a user query response"),
    }
}

#[test]
fn by_user_first_matching_record_wins() {
    let groups = vec![group("ten", 10, &[]), group("twenty", 20, &[])];
    let users = vec![user("alice", 1, 10), user("alice", 2, 20)];
    let response = groupls(by_user("alice"), Ok(groups), Ok(users));
    match response {
        TopLevelResponse::UserQuery(result) => {
            let names: Vec<&str> = result.user.groups.iter().map(|g| g.name.as_str()).collect();
            assert_eq!(names, vec!["ten"]);
        }
        _ => panic!("expected a user query response"),
    }
}

#[test]
fn unknown_user_is_a_failure_not_an_empty_list() {
    let groups = vec![group("admin", 10, &["alice"])];
    let users = vec![user("alice", 1, 10)];
    let response = groupls(by_user("ghost"), Ok(groups), Ok(users));
    match response {
        TopLevelResponse::NoResponse(result) => {
            assert_eq!(result.exit_code, error_codes::USER_NOT_FOUND);
            assert_eq!(result.error, "Could not find user: ghost");
        }
        _ => panic!("expected a failure response"),
    }
}

#[test]
fn by_group_joins_in_user_file_order_without_duplicates() {
    let groups = vec![group("admin", 10, &["bob", "carol"])];
    let users = vec![
        user("alice", 1, 10),
        user("bob", 2, 10),
        user("dave", 3, 20),
        user("carol", 4, 30),
    ];
    let response = groupls(by_group("admin"), Ok(groups), Ok(users));
    match response {
        TopLevelResponse::GroupQuery(result) => {
            assert_eq!(result.group.group_name, "admin");
            let names: Vec<&str> = result.group.users.iter().map(|u| u.name.as_str()).collect();
            assert_eq!(names, vec!["alice", "bob", "carol"]);
        }
        _ => panic!("expected a group query response"),
    }
}

#[test]
fn unknown_group_is_a_failure() {
    let response = groupls(by_group("nope"), Ok(vec![group("admin", 10, &[])]), Ok(vec![]));
    match response {
        TopLevelResponse::NoResponse(result) => {
            assert_eq!(result.exit_code, error_codes::GROUP_NOT_FOUND);
            assert_eq!(result.error, "Could not find group: nope");
        }
        _ => panic!("expected a failure response"),
    }
}

#[test]
fn group_read_failure_wins() {
    let response = groupls(by_user("alice"), Err("io trouble".to_string()), Ok(vec![]));
    match response {
        TopLevelResponse::NoResponse(result) => {
            assert_eq!(result.exit_code, error_codes::READ_GROUPS_ERROR);
            assert_eq!(result.error, "Could not read groups: io trouble");
        }
        _ => panic!("expected a failure response"),
    }
}

#[test]
fn user_read_failure_reported_after_groups_load() {
    let response = groupls(
        by_user("alice"),
        Ok(vec![group("admin", 10, &[])]),
        Err("io trouble".to_string()),
    );
    match response {
        TopLevelResponse::NoResponse(result) => {
            assert_eq!(result.exit_code, error_codes::READ_USERS_ERROR);
            assert_eq!(result.error, "Could not read users: io trouble");
        }
        _ => panic!("expected a failure response"),
    }
}

#[test]
fn error_codes_are_distinct() {
    let codes = [
        error_codes::INVALID_USAGE,
        error_codes::READ_GROUPS_ERROR,
        error_codes::READ_USERS_ERROR,
        error_codes::GROUP_NOT_FOUND,
        error_codes::USER_NOT_FOUND,
    ];
    for (i, a) in codes.iter().enumerate() {
        assert_ne!(*a, 0);
        for b in codes.iter().skip(i + 1) {
            assert_ne!(a, b);
        }
    }
}

#[test]
fn end_to_end_with_one_malformed_line() {
    let passwd_lines: Vec<String> =
        vec!["this line is broken".to_string(), "alice:x:1000:1000".to_string()];
    let (users, errors) = load_users(&passwd_lines);
    assert_eq!(users.len(), 1);
    assert_eq!(errors.len(), 1);
    let groups = vec![group("admin", 1000, &[])];
    let response = groupls(by_user("alice"), Ok(groups), Ok(users));
    match response {
        TopLevelResponse::UserQuery(result) => {
            let names: Vec<&str> = result.user.groups.iter().map(|g| g.name.as_str()).collect();
            assert_eq!(names, vec!["admin"]);
        }
        _ => panic!("expected a user query response"),
    }
}
