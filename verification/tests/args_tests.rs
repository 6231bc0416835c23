use groupls::args::{parse_argv_data, process_args, FlagArg};
use groupls::errors::UsageError;

fn argv(raw: &[&str]) -> Vec<String> {
    raw.iter().map(|s| s.to_string()).collect()
}

#[test]
fn plain_invocation_has_no_flags_and_no_positionals() {
    let (flags, pos) = parse_argv_data(argv(&[])).unwrap();
    assert_eq!(flags, Vec::<FlagArg>::new());
    assert_eq!(pos, Vec::<String>::new());
}

#[test]
fn short_and_long_flags_are_recognized() {
    let (flags, pos) = parse_argv_data(argv(&["-u", "alice"])).unwrap();
    assert_eq!(flags, vec![FlagArg::USER]);
    assert_eq!(pos, vec!["alice".to_string()]);

    let (flags, pos) = parse_argv_data(argv(&["--group", "admin", "--json"])).unwrap();
    assert_eq!(flags, vec![FlagArg::GROUP, FlagArg::JSON]);
    assert_eq!(pos, vec!["admin".to_string()]);
}

#[test]
fn repeated_flags_are_kept_once() {
    let (flags, _) = parse_argv_data(argv(&["-u", "--user", "-u", "alice"])).unwrap();
    assert_eq!(flags, vec![FlagArg::USER]);
}

#[test]
fn arguments_after_separator_are_positional() {
    let (flags, pos) = parse_argv_data(argv(&["-u", "--", "--help"])).unwrap();
    assert_eq!(flags, vec![FlagArg::USER]);
    assert_eq!(pos, vec!["--help".to_string()]);
}

#[test]
fn unrecognized_flag_is_an_error() {
    let err = parse_argv_data(argv(&["-x", "alice"])).unwrap_err();
    assert_eq!(err, UsageError::UnrecognizedFlag("-x".to_string()));
}

#[test]
fn help_forgives_unrecognized_flags() {
    let (flags, pos) = parse_argv_data(argv(&["-x", "--help", "alice"])).unwrap();
    assert!(flags.contains(&FlagArg::HELP));
    assert_eq!(pos, Vec::<String>::new());
}

#[test]
fn process_args_builds_a_user_request() {
    let target = process_args(vec![FlagArg::USER], argv(&["alice"])).unwrap();
    assert_eq!(target.user_to_list, Some("alice".to_string()));
    assert_eq!(target.group_to_list, None);
}

#[test]
fn process_args_builds_a_group_request() {
    let target = process_args(vec![FlagArg::GROUP, FlagArg::JSON], argv(&["admin"])).unwrap();
    assert_eq!(target.user_to_list, None);
    assert_eq!(target.group_to_list, Some("admin".to_string()));
}

#[test]
fn process_args_builds_the_overview_request() {
    let target = process_args(vec![FlagArg::JSON], argv(&[])).unwrap();
    assert_eq!(target.user_to_list, None);
    assert_eq!(target.group_to_list, None);
}

#[test]
fn process_args_rejects_too_many_positionals() {
    let err = process_args(vec![FlagArg::USER], argv(&["a", "b"])).unwrap_err();
    assert_eq!(err, UsageError::TooManyPositionalArguments);
}

#[test]
fn process_args_requires_an_object_for_user_or_group() {
    let err = process_args(vec![FlagArg::USER], argv(&[])).unwrap_err();
    assert_eq!(err, UsageError::MissingRequiredObject);
    let err = process_args(vec![FlagArg::GROUP], argv(&[])).unwrap_err();
    assert_eq!(err, UsageError::MissingRequiredObject);
}

#[test]
fn process_args_rejects_an_object_of_unspecified_kind() {
    let err = process_args(vec![], argv(&["alice"])).unwrap_err();
    assert_eq!(err, UsageError::UnspecifiedObjectKind("alice".to_string()));
}
