use axyl_tickets::config::Config;
use axyl_tickets::logging::{color_of, log_ticket_action, LogAction};

#[test]
fn unset_log_channel_is_a_silent_noop() {
    let config = Config::new(String::new());
    let r = log_ticket_action(&config, LogAction::Opened, 7, String::from("ticket-alice"), 1);
    assert!(r.is_none());
}

#[test]
fn configured_log_channel_receives_the_entry() {
    let mut config = Config::new(String::new());
    config.set_log_channel_id(900);
    let r = log_ticket_action(&config, LogAction::Closed, 7, String::from("ticket-alice"), 55)
        .expect("a configured log channel must receive the entry");
    assert_eq!(r.log_channel_id, 900);
    assert_eq!(r.entry.action, LogAction::Closed);
    assert_eq!(r.entry.user_id, 7);
    assert_eq!(r.entry.channel_name, "ticket-alice");
    assert_eq!(r.entry.timestamp, 55);
}

#[test]
fn each_action_has_its_colour() {
    assert_eq!(color_of(LogAction::Opened), 0x00ff00);
    assert_eq!(color_of(LogAction::Closed), 0xff0000);
    assert_eq!(color_of(LogAction::UserAdded), 0x0000ff);
    assert_eq!(color_of(LogAction::UserRemoved), 0xff00ff);
}
