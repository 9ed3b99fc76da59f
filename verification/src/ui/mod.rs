//! Terminal user interface logic: what each panel and overlay draws and where,
//! text editing, and what a click lands on.

pub mod calendar_view;
pub mod clock;
pub mod event_form;
pub mod event_list;
pub mod layout;
pub mod paint;
pub mod text_input;
pub mod upcoming_events;
pub mod weekly_view;
