use broom::child_process::ProcessArgs;

fn pair(k: &str, v: &str) -> (String, String) {
    (k.to_string(), v.to_string())
}

fn env_sorted(p: &ProcessArgs) -> Vec<(String, String)> {
    let mut e = p.env().clone();
    e.sort();
    e
}

#[test]
fn new_has_no_args_and_no_env() {
    let p = ProcessArgs::new("sleep");
    assert_eq!(p.program(), "sleep");
    assert!(p.args().is_empty());
    assert!(p.env().is_empty());
}

#[test]
fn with_args_replaces_args() {
    let p = ProcessArgs::new("sleep")
        .with_args(vec!["1".to_string()])
        .with_args(vec!["20".to_string(), "10".to_string()]);
    assert_eq!(p.args(), &vec!["20".to_string(), "10".to_string()]);
    assert_eq!(p.program(), "sleep");
}

#[test]
fn with_env_later_pairs_win() {
    let p = ProcessArgs::new("env").with_env(vec![pair("A", "1"), pair("B", "2"), pair("A", "3")]);
    assert_eq!(env_sorted(&p), vec![pair("A", "3"), pair("B", "2")]);
}

#[test]
fn with_env_replaces_earlier_env_and_keeps_args() {
    let p = ProcessArgs::new("env")
        .with_args(vec!["-0".to_string()])
        .with_env(vec![pair("OLD", "x")])
        .with_env(vec![pair("NEW", "y")]);
    assert_eq!(env_sorted(&p), vec![pair("NEW", "y")]);
    assert_eq!(p.args(), &vec!["-0".to_string()]);
}
