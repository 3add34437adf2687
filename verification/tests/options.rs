use absurd::AwaitEventOptions;

#[test]
fn new_options_are_empty() {
    let options = AwaitEventOptions::new();
    assert_eq!(options.step_name, None);
    assert_eq!(options.timeout_secs, None);
    let options = AwaitEventOptions::default();
    assert_eq!(options.step_name, None);
    assert_eq!(options.timeout_secs, None);
}

#[test]
fn options_are_built_up() {
    let options = AwaitEventOptions::new().with_step_name("wait").with_timeout(1);
    assert_eq!(options.step_name.as_deref(), Some("wait"));
    assert_eq!(options.timeout_secs, Some(1));
    let copy = options.clone();
    let renamed = options.with_step_name(String::from("await-0"));
    assert_eq!(renamed.step_name.as_deref(), Some("await-0"));
    assert_eq!(renamed.timeout_secs, Some(1));
    assert_eq!(copy.step_name.as_deref(), Some("wait"));
    assert_eq!(copy.timeout_secs, Some(1));
}
