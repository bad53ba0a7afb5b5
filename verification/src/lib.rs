//! Watching IMAP mailboxes for unseen messages and composing the desktop
//! notifications that report them.
//!
//! The crate holds the decisions of the watcher: how the configuration is
//! resolved, what is asked of the mail server and in which order, how the
//! subjects of unseen messages are summarised, and what is shown to the
//! user. Connections, threads and the notification bus belong to the
//! program that drives it.

pub mod text;
pub mod config;
pub mod summary;
pub mod mail;
pub mod dbus_notify;
pub mod imap_notify;
pub mod watcher;
pub mod watcher_laws;
pub mod supervisor;
