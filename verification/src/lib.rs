//! Core of a support-ticket workflow: a configuration store, a permission
//! model for ticket channels, the ticket lifecycle state machine with its
//! cancellable close countdown, and the construction of lifecycle log
//! entries. Platform I/O (the chat gateway, the database) is left to the
//! embedding program, which feeds plain values in and carries actions out.

pub mod commands;
pub mod config;
pub mod errors;
pub mod lifecycle;
pub mod logging;
pub mod perms;
pub mod text;
