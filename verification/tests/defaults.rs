use lambda_operator::types::{default_handler, default_pull_policy, default_timeout};

#[test]
fn default_pull_policy_is_if_not_present() {
    assert_eq!(default_pull_policy(), "IfNotPresent");
}

#[test]
fn default_handler_is_handler() {
    assert_eq!(default_handler(), "handler");
}

#[test]
fn default_timeout_is_five_minutes() {
    assert_eq!(default_timeout(), 300);
}
