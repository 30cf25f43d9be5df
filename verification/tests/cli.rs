use broom::cli::{parse_args, termination_timeout_secs, ArgsError, DEFAULT_TERMINATION_TIMEOUT_SECS};

fn strings(v: &[&str]) -> Vec<String> {
    v.iter().map(|s| s.to_string()).collect()
}

#[test]
fn args_need_a_command() {
    assert!(parse_args(strings(&["broom"])) == Err(ArgsError::MainChildCommandUnspecified));
    assert!(parse_args(Vec::new()) == Err(ArgsError::MainChildCommandUnspecified));
}

#[test]
fn args_split_command_and_arguments() {
    let (exec, args) = parse_args(strings(&["broom", "sleep", "20", "10"])).unwrap_or_else(|_| panic!("rejected"));
    assert_eq!(exec, "sleep");
    assert_eq!(args, strings(&["20", "10"]));
}

#[test]
fn args_command_alone() {
    let (exec, args) = parse_args(strings(&["broom", "true"])).unwrap_or_else(|_| panic!("rejected"));
    assert_eq!(exec, "true");
    assert!(args.is_empty());
}

fn secs(text: Option<&str>) -> u64 {
    termination_timeout_secs(text.map(|s| s.to_string()))
}

#[test]
fn timeout_defaults_to_ten_seconds() {
    assert_eq!(DEFAULT_TERMINATION_TIMEOUT_SECS, 10);
    assert_eq!(secs(None), 10);
}

#[test]
fn timeout_reads_decimal_seconds() {
    assert_eq!(secs(Some("30")), 30);
    assert_eq!(secs(Some("+7")), 7);
    assert_eq!(secs(Some("0")), 0);
    assert_eq!(secs(Some("007")), 7);
    assert_eq!(secs(Some("18446744073709551615")), u64::MAX);
}
