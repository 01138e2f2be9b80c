use seyal_client::input_policy::{load_input_policy, InputPolicy};

#[test]
fn default_is_false() {
    assert_eq!(load_input_policy(None).0, InputPolicy::default());
}

#[test]
fn true_and_false_from_input_table() {
    assert!(
        load_input_policy(Some("[input]\noption_as_alt = true"))
            .0
            .option_as_alt
    );
    assert!(
        !load_input_policy(Some("[input]\noption_as_alt = false"))
            .0
            .option_as_alt
    );
}

#[test]
fn invalid_and_unknown_retain_false_and_diagnose() {
    let (policy, warnings) = load_input_policy(Some("[input]\noption_as_alt = \"yes\""));
    assert!(!policy.option_as_alt);
    assert_eq!(
        warnings,
        vec!["input.option_as_alt ignored; expected boolean"]
    );

    let (policy, warnings) = load_input_policy(Some("[input]\noption_as_alt = true\nextra = 1"));
    assert!(policy.option_as_alt);
    assert_eq!(warnings, vec!["unknown key input.extra ignored"]);

    let (policy, warnings) = load_input_policy(Some("this is not = toml ["));
    assert!(!policy.option_as_alt);
    assert!(warnings.is_empty());
}

#[test]
fn visual_tables_do_not_set_input_policy() {
    let (policy, warnings) = load_input_policy(Some(
        "[ui]\nappearance = \"dark\"\n[input]\noption_as_alt = true",
    ));
    assert!(policy.option_as_alt);
    assert!(warnings.is_empty());
}

#[test]
fn unknown_input_keys_are_reported_in_key_order() {
    let (policy, warnings) =
        load_input_policy(Some("[input]\nzeta = 1\nalpha = 2 # note\noption_as_alt = true"));
    assert!(policy.option_as_alt);
    assert_eq!(
        warnings,
        vec!["unknown key input.alpha ignored", "unknown key input.zeta ignored"]
    );
}

#[test]
fn unknown_keys_sort_before_the_non_boolean_warning() {
    let (policy, warnings) =
        load_input_policy(Some("[input]\nzeta = 1\noption_as_alt = \"yes\"\nalpha = true\n"));
    assert!(!policy.option_as_alt);
    assert_eq!(
        warnings,
        vec![
            "unknown key input.alpha ignored",
            "unknown key input.zeta ignored",
            "input.option_as_alt ignored; expected boolean",
        ]
    );
}
