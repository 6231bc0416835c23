use groupls::errors::{FieldName, LineError};
use groupls::load::{load_groups, load_users};

fn lines(raw: &[&str]) -> Vec<String> {
    raw.iter().map(|s| s.to_string()).collect()
}

#[test]
fn skippable_lines_yield_neither_record_nor_error() {
    let (records, errors) = load_users(&lines(&["# comment only", "   \t ", "", "  # indented"]));
    assert_eq!(records.len(), 0);
    assert_eq!(errors.len(), 0);
}

#[test]
fn load_users_partitions_in_order() {
    let source = lines(&[
        "alice:x:1:10",
        "broken",
        "bob:x:2:20 # trailing comment",
        "dave:x:nan:30",
    ]);
    let (records, errors) = load_users(&source);
    assert_eq!(records.len(), 2);
    assert_eq!(records[0].user, "alice");
    assert_eq!(records[1].user, "bob");
    assert_eq!(records[1].primary_group_id, 20);
    assert_eq!(
        errors,
        vec![
            LineError::MissingField(FieldName::UserId),
            LineError::InvalidNumber(FieldName::UserId),
        ]
    );
}

#[test]
fn load_groups_partitions_in_order() {
    let source = lines(&[
        "admin:x:10:alice,bob",
        "# a note",
        "dev:x:20:",
        "oops:x:nan:alice",
    ]);
    let (records, errors) = load_groups(&source);
    assert_eq!(records.len(), 2);
    assert_eq!(records[0].group, "admin");
    assert_eq!(records[0].usernames, vec!["alice".to_string(), "bob".to_string()]);
    assert_eq!(records[1].group, "dev");
    assert_eq!(records[1].usernames, Vec::<String>::new());
    assert_eq!(errors, vec![LineError::InvalidNumber(FieldName::GroupId)]);
}

#[test]
fn malformed_lines_never_abort_a_load() {
    let source = lines(&["x", "y", "z:1", "alice:x:1:1"]);
    let (records, errors) = load_users(&source);
    assert_eq!(records.len(), 1);
    assert_eq!(errors.len(), 3);
}

#[test]
fn loading_twice_yields_identical_results() {
    let source = lines(&[
        "alice:x:1:10",
        "broken line",
        "# comment",
        "bob:x:2:20",
    ]);
    let first = load_users(&source);
    let second = load_users(&source);
    assert_eq!(first, second);

    let group_source = lines(&["admin:x:10:alice", "bad", "dev:x:20:"]);
    let first_groups = load_groups(&group_source);
    let second_groups = load_groups(&group_source);
    assert_eq!(first_groups, second_groups);
}

#[test]
fn one_malformed_one_valid_line() {
    let source = lines(&["not a passwd line", "alice:x:1000:1000"]);
    let (records, errors) = load_users(&source);
    assert_eq!(records.len(), 1);
    assert_eq!(errors.len(), 1);
    assert_eq!(records[0].user, "alice");
}
