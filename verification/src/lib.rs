//! Verified core of the dsh desktop shell: which commands start, probe and stop the
//! dsh web service, how probe output is read, and the decisions that the desktop
//! shell takes on window, tray and start-up events.

pub mod service;
pub mod text;
pub mod readiness;
pub mod startup;
pub mod shell;

