//! Support library for a set of status-bar modules.
//!
//! The heart of the crate is the clock-tracking agent: a poller keeps a
//! shared snapshot of the currently clocked-in task, a display renderer
//! turns it into an elapsed-time line, and a notification scheduler
//! computes grid-aligned break reminders.  Everything here is pure
//! computation on plain values; the surrounding process I/O (the external
//! timer queries, the desktop notifications, the status-bar output) lives
//! outside the library and hands values in.

pub mod config;
pub mod display;
pub mod error;
pub mod github;
pub mod notify;
pub mod poller;
pub mod projects;
pub mod source;
pub mod state;
pub mod system;
pub mod text;
pub mod waybar;
pub mod weather;
