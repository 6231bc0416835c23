use groupls::errors::{FieldName, LineError};
use groupls::parse_system::{
    parse_group_line, parse_passwd_line, remove_comment_from_line, sanitize_line,
};
use groupls::text::parse_i64;

#[test]
fn comment_is_stripped() {
    assert_eq!(remove_comment_from_line("root:x:0:0 # super user"), "root:x:0:0 ");
    assert_eq!(remove_comment_from_line("# whole line"), "");
    assert_eq!(remove_comment_from_line("no comment here"), "no comment here");
    assert_eq!(remove_comment_from_line("a#b#c"), "a");
}

#[test]
fn sanitize_trims_and_strips() {
    assert_eq!(sanitize_line("  root:x:0:0  # super user"), "root:x:0:0");
    assert_eq!(sanitize_line("\t alpha beta \t"), "alpha beta");
}

#[test]
fn comment_only_line_sanitizes_to_nothing() {
    assert_eq!(sanitize_line("# only a comment"), "");
    assert_eq!(sanitize_line("   # indented comment"), "");
}

#[test]
fn whitespace_only_line_sanitizes_to_nothing() {
    assert_eq!(sanitize_line("   \t  "), "");
    assert_eq!(sanitize_line(""), "");
}

#[test]
fn valid_user_line_parses() {
    let entry = parse_passwd_line("alice:x:1000:1000").unwrap();
    assert_eq!(entry.user, "alice");
    assert_eq!(entry.user_id, 1000);
    assert_eq!(entry.primary_group_id, 1000);
}

#[test]
fn user_name_is_trimmed() {
    let entry = parse_passwd_line(" alice :x:1:2").unwrap();
    assert_eq!(entry.user, "alice");
}

#[test]
fn user_line_extra_fields_ignored() {
    let entry = parse_passwd_line("alice:x:1:2:Alice A.:/home/alice:/bin/sh").unwrap();
    assert_eq!(entry.user, "alice");
    assert_eq!(entry.user_id, 1);
    assert_eq!(entry.primary_group_id, 2);
}

#[test]
fn user_line_too_few_fields() {
    assert_eq!(
        parse_passwd_line("alice"),
        Err(LineError::MissingField(FieldName::UserId))
    );
    assert_eq!(
        parse_passwd_line("alice:x"),
        Err(LineError::MissingField(FieldName::UserId))
    );
    assert_eq!(
        parse_passwd_line("alice:x:1000"),
        Err(LineError::MissingField(FieldName::GroupId))
    );
}

#[test]
fn user_line_missing_field_beats_invalid_number() {
    assert_eq!(
        parse_passwd_line("alice:x:not-a-number"),
        Err(LineError::MissingField(FieldName::GroupId))
    );
}

#[test]
fn user_line_invalid_numbers() {
    assert_eq!(
        parse_passwd_line("alice:x:abc:1"),
        Err(LineError::InvalidNumber(FieldName::UserId))
    );
    assert_eq!(
        parse_passwd_line("alice:x:1:abc"),
        Err(LineError::InvalidNumber(FieldName::GroupId))
    );
    assert_eq!(
        parse_passwd_line("alice:x::1"),
        Err(LineError::InvalidNumber(FieldName::UserId))
    );
}

#[test]
fn valid_group_line_parses() {
    let entry = parse_group_line("admin:x:10:alice,bob").unwrap();
    assert_eq!(entry.group, "admin");
    assert_eq!(entry.group_id, 10);
    assert_eq!(entry.usernames, vec!["alice".to_string(), "bob".to_string()]);
}

#[test]
fn group_member_tokens_trimmed_and_empties_dropped() {
    let entry = parse_group_line("admin:x:10:alice, bob,,carol").unwrap();
    assert_eq!(
        entry.usernames,
        vec!["alice".to_string(), "bob".to_string(), "carol".to_string()]
    );
}

#[test]
fn group_empty_member_field_is_valid() {
    let entry = parse_group_line("admin:x:10:").unwrap();
    assert_eq!(entry.usernames, Vec::<String>::new());
}

#[test]
fn group_member_duplicates_kept_in_order() {
    let entry = parse_group_line("g:x:1:bob,alice,bob").unwrap();
    assert_eq!(
        entry.usernames,
        vec!["bob".to_string(), "alice".to_string(), "bob".to_string()]
    );
}

#[test]
fn group_line_too_few_fields() {
    assert_eq!(
        parse_group_line("admin"),
        Err(LineError::MissingField(FieldName::GroupId))
    );
    assert_eq!(
        parse_group_line("admin:x"),
        Err(LineError::MissingField(FieldName::GroupId))
    );
    assert_eq!(
        parse_group_line("admin:x:10"),
        Err(LineError::MissingField(FieldName::MemberList))
    );
}

#[test]
fn group_line_invalid_number() {
    assert_eq!(
        parse_group_line("admin:x:ten:alice"),
        Err(LineError::InvalidNumber(FieldName::GroupId))
    );
}

#[test]
fn parse_i64_accepts_plain_decimals() {
    assert_eq!(parse_i64("0"), Some(0));
    assert_eq!(parse_i64("1000"), Some(1000));
    assert_eq!(parse_i64("-17"), Some(-17));
    assert_eq!(parse_i64("007"), Some(7));
    assert_eq!(parse_i64("9223372036854775807"), Some(i64::MAX));
    assert_eq!(parse_i64("-9223372036854775808"), Some(i64::MIN));
    assert_eq!(parse_i64("0000000000000000000000007"), Some(7));
}

#[test]
fn parse_i64_rejects_bad_text() {
    assert_eq!(parse_i64(""), None);
    assert_eq!(parse_i64("-"), None);
    assert_eq!(parse_i64("+5"), None);
    assert_eq!(parse_i64("12a"), None);
    assert_eq!(parse_i64(" 12"), None);
    assert_eq!(parse_i64("9223372036854775808"), None);
    assert_eq!(parse_i64("-9223372036854775809"), None);
    assert_eq!(parse_i64("184467440737095516150"), None);
}
