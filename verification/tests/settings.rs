//! Settings from the environment.

use clipknow::settings::env_var;

#[test]
fn a_variable_that_is_not_set_is_none() {
    assert_eq!(env_var(None), None);
}

#[test]
fn an_empty_variable_counts_as_not_set() {
    assert_eq!(env_var(Some("".into())), None);
}

#[test]
fn a_blank_variable_counts_as_not_set() {
    assert_eq!(env_var(Some("   ".into())), None);
}

#[test]
fn a_value_is_kept_with_its_spaces() {
    assert_eq!(env_var(Some(" sk-abc ".into())), Some(" sk-abc ".to_string()));
}
