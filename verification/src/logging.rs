//! The action logger: each lifecycle transition becomes a structured log
//! entry posted to the configured log channel.
//!
//! Logging is best-effort and never blocks the operation that produced the
//! entry: with no log channel configured the logger is a silent no-op, and
//! a failure to post the entry is the embedding program's to swallow — it
//! must never abort a lifecycle transition that has already taken effect.

use vstd::prelude::*;
use crate::config::Config;

verus! {

/// A lifecycle transition worth logging.
#[derive(Clone, Copy, Debug, PartialEq, Eq, Structural)]
pub enum LogAction {
    Opened,
    Closed,
    UserAdded,
    UserRemoved,
}

/// The accent colour a log entry is rendered with, by action.
pub open spec fn spec_color_of(action: LogAction) -> u32 {
    match action {
        LogAction::Opened => 0x00ff00,
        LogAction::Closed => 0xff0000,
        LogAction::UserAdded => 0x0000ff,
        LogAction::UserRemoved => 0xff00ff,
    }
}

/// The accent colour a log entry is rendered with: green for an opened
/// ticket, red for a closed one, blue for an added member, magenta for a
/// removed one.
pub fn color_of(action: LogAction) -> (c: u32)
    ensures
        c == spec_color_of(action),
{
    match action {
        LogAction::Opened => 0x00ff00,
        LogAction::Closed => 0xff0000,
        LogAction::UserAdded => 0x0000ff,
        LogAction::UserRemoved => 0xff00ff,
    }
}

/// One record of a lifecycle transition.
#[derive(Debug, PartialEq, Eq)]
pub struct LogEntry {
    pub action: LogAction,
    pub user_id: u64,
    pub channel_name: String,
    pub timestamp: u64,
}

/// A log entry together with the channel it is to be posted to.
#[derive(Debug, PartialEq, Eq)]
pub struct LogRequest {
    pub log_channel_id: u64,
    pub entry: LogEntry,
}

/// Whether `r` is exactly what the logger owes for this transition under
/// `config`: nothing when no log channel is configured, and otherwise one
/// entry with these fields addressed to the configured channel.
pub open spec fn is_log_for(
    r: Option<LogRequest>,
    config: Config,
    action: LogAction,
    user_id: u64,
    channel_name: Seq<char>,
    timestamp: u64,
) -> bool {
    match config.log_channel_id {
        None => r is None,
        Some(ch) => r matches Some(req) && {
            &&& req.log_channel_id == ch
            &&& req.entry.action == action
            &&& req.entry.user_id == user_id
            &&& req.entry.channel_name@ == channel_name
            &&& req.entry.timestamp == timestamp
        },
    }
}

/// Record a lifecycle transition: a silent no-op when no log channel is
/// configured — not an error — and otherwise one structured entry for the
/// configured channel, coloured by the action.
pub fn log_ticket_action(
    config: &Config,
    action: LogAction,
    user_id: u64,
    channel_name: String,
    timestamp: u64,
) -> (r: Option<LogRequest>)
    ensures
        is_log_for(r, *config, action, user_id, channel_name@, timestamp),
{
    match config.get_log_channel_id() {
        None => None,
        Some(ch) => Some(
            LogRequest {
                log_channel_id: ch,
                entry: LogEntry { action, user_id, channel_name, timestamp },
            },
        ),
    }
}

} // verus!
