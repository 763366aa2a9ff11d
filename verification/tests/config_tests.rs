use axyl_tickets::config::{parse_id, set_category, set_log_channel, Config, SetReply};

#[test]
fn parse_simple_number() {
    assert_eq!(parse_id("123"), Some(123));
}

#[test]
fn parse_zero() {
    assert_eq!(parse_id("0"), Some(0));
}

#[test]
fn parse_leading_zeros() {
    assert_eq!(parse_id("007"), Some(7));
}

#[test]
fn parse_empty_rejected() {
    assert_eq!(parse_id(""), None);
}

#[test]
fn parse_letters_rejected() {
    assert_eq!(parse_id("abc"), None);
    assert_eq!(parse_id("12a"), None);
    assert_eq!(parse_id("a12"), None);
}

#[test]
fn parse_sign_rejected() {
    assert_eq!(parse_id("+12"), None);
    assert_eq!(parse_id("-12"), None);
}

#[test]
fn parse_max_u64() {
    assert_eq!(parse_id("18446744073709551615"), Some(u64::MAX));
}

#[test]
fn parse_overflow_rejected() {
    assert_eq!(parse_id("18446744073709551616"), None);
    assert_eq!(parse_id("99999999999999999999999"), None);
}

#[test]
fn parse_realistic_channel_id() {
    assert_eq!(parse_id("1145141919810114514"), Some(1145141919810114514));
}

#[test]
fn new_config_has_nothing_set() {
    let config = Config::new(String::from("SECRET-REDACTED"));
    assert_eq!(config.get_category_id(), None);
    assert_eq!(config.get_log_channel_id(), None);
    assert_eq!(config.token, "SECRET-REDACTED");
}

#[test]
fn setters_update_their_field_only() {
    let mut config = Config::new(String::new());
    config.set_category_id(10);
    assert_eq!(config.get_category_id(), Some(10));
    assert_eq!(config.get_log_channel_id(), None);
    config.set_log_channel_id(20);
    assert_eq!(config.get_log_channel_id(), Some(20));
    assert_eq!(config.get_category_id(), Some(10));
    config.set_category_id(30);
    assert_eq!(config.get_category_id(), Some(30));
    assert_eq!(config.get_log_channel_id(), Some(20));
}

#[test]
fn set_category_valid_input_commits() {
    let mut config = Config::new(String::new());
    let reply = set_category(&mut config, Some("424242"));
    assert_eq!(reply, SetReply::Updated(424242));
    assert_eq!(config.get_category_id(), Some(424242));
}

#[test]
fn set_category_invalid_input_rejected() {
    let mut config = Config::new(String::new());
    config.set_category_id(7);
    let reply = set_category(&mut config, Some("not-a-number"));
    assert_eq!(reply, SetReply::InvalidId);
    assert_eq!(config.get_category_id(), Some(7));
}

#[test]
fn set_category_missing_input_rejected() {
    let mut config = Config::new(String::new());
    let reply = set_category(&mut config, None);
    assert_eq!(reply, SetReply::MissingId);
    assert_eq!(config.get_category_id(), None);
}

#[test]
fn set_log_channel_valid_input_commits() {
    let mut config = Config::new(String::new());
    let reply = set_log_channel(&mut config, Some("999"));
    assert_eq!(reply, SetReply::Updated(999));
    assert_eq!(config.get_log_channel_id(), Some(999));
    assert_eq!(config.get_category_id(), None);
}

#[test]
fn set_log_channel_invalid_input_rejected() {
    let mut config = Config::new(String::new());
    let reply = set_log_channel(&mut config, Some(""));
    assert_eq!(reply, SetReply::InvalidId);
    assert_eq!(config.get_log_channel_id(), None);
}

#[test]
fn set_log_channel_missing_input_rejected() {
    let mut config = Config::new(String::new());
    let reply = set_log_channel(&mut config, None);
    assert_eq!(reply, SetReply::MissingId);
    assert_eq!(config.get_log_channel_id(), None);
}
