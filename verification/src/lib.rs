//! Solstice: a local-first calendar. This crate holds the verified core of the
//! application: dates, text editing, recurrence expansion, the monthly grid,
//! form validation and the navigation state machine.

pub mod date;
pub mod text;
pub mod ui;
pub mod utils;
pub mod calendar;
pub mod events;
pub mod config;
pub mod daymap;
pub mod app;
pub mod gcal;
