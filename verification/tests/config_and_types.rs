use trusty_tail::config::{missing_variable, read_from_env, Config};
use trusty_tail::types::BotDialogState;

#[test]
fn config_init_reads_both_values() {
    let c = Config::init(Some("postgres://db".to_string()), Some("https://sentry".to_string()));
    assert_eq!(c.db_url, "postgres://db");
    assert_eq!(c.sentry_url, "https://sentry");
}

#[test]
fn nothing_missing_when_both_present() {
    assert!(missing_variable(&Some("a".to_string()), &Some("b".to_string())).is_none());
}

#[test]
fn missing_db_url_is_reported_first() {
    let e = missing_variable(&None, &None).unwrap();
    assert_eq!(e.name, "DB_URL");
    assert_eq!(e.message(), "Can't read DB_URL from env");
}

#[test]
fn missing_db_url_is_reported() {
    let e = missing_variable(&None, &Some("https://sentry".to_string())).unwrap();
    assert_eq!(e.name, "DB_URL");
}

#[test]
fn missing_sentry_url_is_reported() {
    let e = missing_variable(&Some("postgres://db".to_string()), &None).unwrap();
    assert_eq!(e.name, "SENTRY_URL");
    assert_eq!(e.message(), "Can't read SENTRY_URL from env");
}

#[test]
fn read_from_env_keeps_the_value() {
    assert_eq!(read_from_env(Some("value".to_string())), "value");
}

#[test]
fn empty_value_is_still_a_value() {
    assert!(missing_variable(&Some(String::new()), &Some(String::new())).is_none());
    let c = Config::init(Some(String::new()), Some(String::new()));
    assert_eq!(c.db_url, "");
    assert_eq!(c.sentry_url, "");
}

#[test]
fn dialogue_starts_idle() {
    assert_eq!(BotDialogState::default(), BotDialogState::Idle);
}
