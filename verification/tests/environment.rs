use log4rs_email::settings::{
    resolve, DEFAULT_RECIPIENT, DEFAULT_SENDER, DEFAULT_SMTP_SERVER, DEFAULT_SUBJECT,
    DISCOVERY_NAME, RECIPIENT_VARIABLE, SENDER_VARIABLE, SMTP_SERVER_VARIABLE,
};
use log4rs_email::Environment;

#[test]
fn empty_environment_sets_nothing() {
    let env = Environment::new();
    assert_eq!(env.get("SMTP_SERVER"), None);
    assert_eq!(env.get("LOG4RS_EMAIL_RECIPIENT"), None);
    assert_eq!(env.get(""), None);
}

#[test]
fn set_variable_is_found_by_name() {
    let mut env = Environment::new();
    env.set("SMTP_SERVER", "mail.example.com:587");
    assert_eq!(env.get("SMTP_SERVER"), Some("mail.example.com:587".to_string()));
    assert_eq!(env.get("SMTP_SERVE"), None);
    assert_eq!(env.get("SMTP_SERVER "), None);
    assert_eq!(env.get("smtp_server"), None);
}

#[test]
fn later_value_replaces_earlier_one() {
    let mut env = Environment::new();
    env.set("LOG4RS_EMAIL_SENDER", "first@example.com");
    env.set("SMTP_SERVER", "10.0.0.1:25");
    env.set("LOG4RS_EMAIL_SENDER", "second@example.com");
    assert_eq!(env.get("LOG4RS_EMAIL_SENDER"), Some("second@example.com".to_string()));
    assert_eq!(env.get("SMTP_SERVER"), Some("10.0.0.1:25".to_string()));
}

#[test]
fn variables_do_not_disturb_each_other() {
    let mut env = Environment::new();
    env.set("A", "1");
    env.set("B", "2");
    env.set("C", "");
    assert_eq!(env.get("A"), Some("1".to_string()));
    assert_eq!(env.get("B"), Some("2".to_string()));
    assert_eq!(env.get("C"), Some(String::new()));
    assert_eq!(env.get("D"), None);
}

#[test]
fn names_and_defaults_are_the_documented_ones() {
    assert_eq!(DISCOVERY_NAME, "log4rs-email");
    assert_eq!(SMTP_SERVER_VARIABLE, "SMTP_SERVER");
    assert_eq!(RECIPIENT_VARIABLE, "LOG4RS_EMAIL_RECIPIENT");
    assert_eq!(SENDER_VARIABLE, "LOG4RS_EMAIL_SENDER");
    assert_eq!(DEFAULT_SMTP_SERVER, "127.0.0.1:25");
    assert_eq!(DEFAULT_RECIPIENT, "postmaster@localhost");
    assert_eq!(DEFAULT_SUBJECT, "Log report from log4rs_email");
    assert_eq!(DEFAULT_SENDER, "nobody@test.com");
}

#[test]
fn resolve_prefers_explicit_value() {
    let mut env = Environment::new();
    env.set("VAR", "from the environment");
    let explicit = Some("explicit".to_string());
    assert_eq!(resolve(&explicit, &env, "VAR", "fallback"), "explicit");
    assert_eq!(resolve(&explicit, &Environment::new(), "VAR", "fallback"), "explicit");
}

#[test]
fn resolve_prefers_variable_to_fallback() {
    let mut env = Environment::new();
    env.set("VAR", "from the environment");
    assert_eq!(resolve(&None, &env, "VAR", "fallback"), "from the environment");
}

#[test]
fn resolve_falls_back_when_variable_is_unset() {
    let mut env = Environment::new();
    env.set("OTHER", "from the environment");
    assert_eq!(resolve(&None, &env, "VAR", "fallback"), "fallback");
}

#[test]
fn resolve_keeps_an_empty_explicit_value() {
    let mut env = Environment::new();
    env.set("VAR", "from the environment");
    assert_eq!(resolve(&Some(String::new()), &env, "VAR", "fallback"), "");
}
