use solstice::app::{
    parse_time, App, Key, KeyPress, ModalKeyAction, ModalMode, ModalState, Refresh, ViewMode,
};
use solstice::config::Config;
use solstice::date::{Date, MAX_YEAR, MIN_YEAR};
use solstice::events::{Event, EventSource, Recurrence};
use solstice::ui::text_input::TextInput;

fn ymd(y: i32, m: u32, d: u32) -> Date {
    Date::from_ymd_opt(y, m, d).unwrap()
}

fn make_test_event(id: i64, title: &str) -> Event {
    Event {
        id,
        title: title.to_string(),
        description: None,
        date: ymd(2026, 6, 1),
        start_time: None,
        end_time: None,
        source: EventSource::Local,
        recurrence: Recurrence::Never,
    }
}

fn make_gcal_event(id: i64, title: &str) -> Event {
    Event { source: EventSource::GoogleCalendar, ..make_test_event(id, title) }
}

fn make_test_app() -> App {
    App::new(Config::default(), ymd(2026, 6, 1))
}

fn key(k: Key) -> KeyPress {
    KeyPress { key: k, shift: false, ctrl: false }
}

#[test]
fn test_validate_empty_title() {
    let modal = ModalState::new_create(ymd(2026, 6, 15));
    let result = modal.validate();
    assert!(result.is_err());
    assert_eq!(result.unwrap_err(), "Title is required");
}

#[test]
fn test_validate_invalid_date() {
    let mut modal = ModalState::new_create(ymd(2026, 6, 15));
    modal.fields[0].input = TextInput::with_value("Meeting", 200);
    modal.fields[1].input = TextInput::with_value("15-06-2026", 10);
    let result = modal.validate();
    assert!(result.is_err());
    assert_eq!(result.unwrap_err(), "Date must be YYYY-MM-DD");
}

#[test]
fn test_validate_end_before_start() {
    let mut modal = ModalState::new_create(ymd(2026, 6, 15));
    modal.fields[0].input = TextInput::with_value("Meeting", 200);
    modal.fields[2].input = TextInput::with_value("14:00", 5);
    modal.fields[3].input = TextInput::with_value("10:00", 5);
    let result = modal.validate();
    assert!(result.is_err());
    assert_eq!(result.unwrap_err(), "End time must be after start time");
}

#[test]
fn test_validate_success() {
    let mut modal = ModalState::new_create(ymd(2026, 6, 15));
    modal.fields[0].input = TextInput::with_value("Lunch", 200);
    modal.fields[2].input = TextInput::with_value("12:00", 5);
    modal.fields[3].input = TextInput::with_value("13:00", 5);
    let result = modal.validate();
    assert!(result.is_ok());
}

#[test]
fn test_validate_invalid_time_format() {
    let mut modal = ModalState::new_create(ymd(2026, 6, 15));
    modal.fields[0].input = TextInput::with_value("Meeting", 200);
    modal.fields[2].input = TextInput::with_value("25:00", 5);
    let result = modal.validate();
    assert!(result.is_err());
}

#[test]
fn test_validate_empty_times_allowed() {
    let mut modal = ModalState::new_create(ymd(2026, 6, 15));
    modal.fields[0].input = TextInput::with_value("All Day", 200);
    let result = modal.validate();
    assert!(result.is_ok());
}

#[test]
fn validate_reports_each_time_error() {
    let mut modal = ModalState::new_create(ymd(2026, 6, 15));
    modal.fields[0].input = TextInput::with_value("  Meeting ", 200);
    modal.fields[2].input = TextInput::with_value("25:00", 5);
    assert_eq!(modal.validate().unwrap_err(), "Time must be HH:MM (00:00-23:59)");
    modal.fields[2].input = TextInput::with_value("9", 5);
    assert_eq!(modal.validate().unwrap_err(), "Time must be HH:MM");
    modal.fields[2].input = TextInput::with_value("a:00", 5);
    assert_eq!(modal.validate().unwrap_err(), "Invalid time format");
    modal.fields[2].input = TextInput::with_value("09:00", 5);
    modal.fields[3].input = TextInput::with_value("1:2:3", 5);
    assert_eq!(modal.validate().unwrap_err(), "Time must be HH:MM");
    modal.fields[3].input = TextInput::with_value(" 09:00", 6);
    assert!(modal.validate().is_ok());
    modal.fields[0].input = TextInput::with_value("   ", 200);
    assert_eq!(modal.validate().unwrap_err(), "Title is required");
}

#[test]
fn parse_time_accepts_what_u32_parsing_accepts() {
    assert_eq!(parse_time("09:05"), Ok((9, 5)));
    assert_eq!(parse_time("+9:+5"), Ok((9, 5)));
    assert_eq!(parse_time("23:59"), Ok((23, 59)));
    assert_eq!(parse_time("24:00"), Err("Time must be HH:MM (00:00-23:59)".to_string()));
    assert_eq!(parse_time("12:60"), Err("Time must be HH:MM (00:00-23:59)".to_string()));
    assert_eq!(parse_time(":30"), Err("Invalid time format".to_string()));
    assert_eq!(parse_time("99999999999:00"), Err("Invalid time format".to_string()));
    assert_eq!(parse_time("1200"), Err("Time must be HH:MM".to_string()));
}

#[test]
fn test_new_create_modal_prefills_date() {
    let date = ymd(2026, 6, 15);
    let modal = ModalState::new_create(date);
    assert_eq!(modal.mode, ModalMode::Create);
    assert_eq!(modal.event_id, None);
    assert_eq!(modal.fields[1].input.value(), "2026-06-15");
    assert_eq!(modal.focused_field, 0);
}

#[test]
fn test_new_edit_modal_prefills_event_data() {
    let event = Event {
        id: 42,
        title: "Meeting".to_string(),
        description: Some("Important".to_string()),
        date: ymd(2026, 6, 1),
        start_time: Some("09:00".to_string()),
        end_time: Some("10:00".to_string()),
        source: EventSource::Local,
        recurrence: Recurrence::Weekly,
    };
    let modal = ModalState::new_edit(&event);
    assert_eq!(modal.mode, ModalMode::Edit);
    assert_eq!(modal.event_id, Some(42));
    assert_eq!(modal.fields[0].input.value(), "Meeting");
    assert_eq!(modal.fields[1].input.value(), "2026-06-01");
    assert_eq!(modal.fields[2].input.value(), "09:00");
    assert_eq!(modal.fields[3].input.value(), "10:00");
    assert_eq!(modal.fields[4].input.value(), "Important");
    assert_eq!(modal.fields[5].input.value(), "weekly");
}

#[test]
fn to_event_data_reads_the_form() {
    let mut modal = ModalState::new_create(ymd(2026, 6, 15));
    modal.fields[0].input = TextInput::with_value(" Lunch ", 200);
    modal.fields[2].input = TextInput::with_value("12:00", 5);
    modal.fields[4].input = TextInput::with_value("  ", 500);
    modal.fields[5].input = TextInput::with_value("daily", 10);
    let (title, date, start, end, description, recurrence) = modal.to_event_data().unwrap();
    assert_eq!(title, "Lunch");
    assert_eq!(date, ymd(2026, 6, 15));
    assert_eq!(start.as_deref(), Some("12:00"));
    assert_eq!(end, None);
    assert_eq!(description, None);
    assert_eq!(recurrence, Recurrence::Daily);
    modal.fields[1].input = TextInput::with_value("nope", 10);
    assert!(modal.to_event_data().is_none());
}

#[test]
fn test_select_next_event() {
    let mut app = make_test_app();
    app.selected_day_events = vec![make_test_event(1, "A"), make_test_event(2, "B"), make_test_event(3, "C")];
    app.selected_event_index = None;
    app.select_next_event();
    assert_eq!(app.selected_event_index, Some(0));
    app.select_next_event();
    assert_eq!(app.selected_event_index, Some(1));
    app.select_next_event();
    assert_eq!(app.selected_event_index, Some(2));
    app.select_next_event();
    assert_eq!(app.selected_event_index, Some(2));
}

#[test]
fn test_select_prev_event() {
    let mut app = make_test_app();
    app.selected_day_events = vec![make_test_event(1, "A"), make_test_event(2, "B")];
    app.selected_event_index = Some(1);
    app.select_prev_event();
    assert_eq!(app.selected_event_index, Some(0));
    app.select_prev_event();
    assert_eq!(app.selected_event_index, Some(0));
}

#[test]
fn test_select_event_empty_list() {
    let mut app = make_test_app();
    app.selected_day_events = vec![];
    app.select_next_event();
    assert_eq!(app.selected_event_index, None);
}

#[test]
fn set_selected_day_events_clamps_selection() {
    let mut app = make_test_app();
    app.selected_event_index = Some(4);
    app.set_selected_day_events(vec![make_test_event(1, "A"), make_test_event(2, "B")]);
    assert_eq!(app.selected_event_index, Some(1));
    app.set_selected_day_events(vec![]);
    assert_eq!(app.selected_event_index, None);
}

#[test]
fn test_modal_tab_wraps() {
    let mut modal = ModalState::new_create(ymd(2026, 6, 15));
    assert_eq!(modal.focused_field, 0);
    for _ in 0..6 {
        modal.focus_next();
    }
    assert_eq!(modal.focused_field, 0, "Tab should wrap around");
}

#[test]
fn test_modal_shift_tab_wraps() {
    let mut modal = ModalState::new_create(ymd(2026, 6, 15));
    modal.focus_prev();
    assert_eq!(modal.focused_field, 5, "Shift-Tab from 0 should wrap to last");
}

#[test]
fn test_cycle_recurrence() {
    let mut modal = ModalState::new_create(ymd(2026, 6, 15));
    assert_eq!(modal.fields[5].input.value(), "none");
    modal.cycle_recurrence();
    assert_eq!(modal.fields[5].input.value(), "daily");
    modal.cycle_recurrence();
    assert_eq!(modal.fields[5].input.value(), "weekly");
    modal.cycle_recurrence();
    assert_eq!(modal.fields[5].input.value(), "monthly");
    modal.cycle_recurrence();
    assert_eq!(modal.fields[5].input.value(), "none");
}

#[test]
fn test_view_mode_default_is_monthly() {
    let app = make_test_app();
    assert_eq!(app.view_mode, ViewMode::Monthly);
}

#[test]
fn test_toggle_view_flips_mode_and_preserves_date() {
    let mut app = make_test_app();
    let original_date = app.selected_date;
    app.toggle_view();
    assert_eq!(app.view_mode, ViewMode::Weekly);
    assert_eq!(app.selected_date, original_date);
    app.toggle_view();
    assert_eq!(app.view_mode, ViewMode::Monthly);
    assert_eq!(app.selected_date, original_date);
}

#[test]
fn test_prev_week_moves_back_seven_days() {
    let mut app = make_test_app();
    app.view_mode = ViewMode::Weekly;
    app.selected_date = ymd(2026, 6, 17);
    app.prev_week();
    assert_eq!(app.selected_date, ymd(2026, 6, 10));
    assert_eq!(app.view_year, 2026);
    assert_eq!(app.view_month, 6);
}

#[test]
fn test_next_week_moves_forward_seven_days() {
    let mut app = make_test_app();
    app.view_mode = ViewMode::Weekly;
    app.selected_date = ymd(2026, 6, 17);
    app.next_week();
    assert_eq!(app.selected_date, ymd(2026, 6, 24));
    assert_eq!(app.view_year, 2026);
    assert_eq!(app.view_month, 6);
}

#[test]
fn test_prev_week_crosses_month_boundary() {
    let mut app = make_test_app();
    app.view_mode = ViewMode::Weekly;
    app.selected_date = ymd(2026, 7, 1);
    app.prev_week();
    assert_eq!(app.selected_date, ymd(2026, 6, 24));
    assert_eq!(app.view_year, 2026);
    assert_eq!(app.view_month, 6);
}

#[test]
fn test_next_week_crosses_month_boundary() {
    let mut app = make_test_app();
    app.view_mode = ViewMode::Weekly;
    app.selected_date = ymd(2026, 6, 29);
    app.next_week();
    assert_eq!(app.selected_date, ymd(2026, 7, 6));
    assert_eq!(app.view_year, 2026);
    assert_eq!(app.view_month, 7);
}

#[test]
fn test_next_week_crosses_year_boundary() {
    let mut app = make_test_app();
    app.view_mode = ViewMode::Weekly;
    app.selected_date = ymd(2026, 12, 28);
    app.next_week();
    assert_eq!(app.selected_date, ymd(2027, 1, 4));
    assert_eq!(app.view_year, 2027);
    assert_eq!(app.view_month, 1);
}

#[test]
fn test_navigate_back_dispatches_based_on_mode() {
    let mut app = make_test_app();
    app.view_mode = ViewMode::Monthly;
    let original_month = app.view_month;
    app.navigate_back();
    assert_eq!(app.view_month, original_month - 1);

    app.view_mode = ViewMode::Weekly;
    app.selected_date = ymd(2026, 6, 17);
    app.navigate_back();
    assert_eq!(app.selected_date, ymd(2026, 6, 10));
}

#[test]
fn test_navigate_forward_dispatches_based_on_mode() {
    let mut app = make_test_app();
    app.view_mode = ViewMode::Monthly;
    let original_month = app.view_month;
    app.navigate_forward();
    assert_eq!(app.view_month, original_month + 1);

    app.view_mode = ViewMode::Weekly;
    app.selected_date = ymd(2026, 6, 17);
    app.navigate_forward();
    assert_eq!(app.selected_date, ymd(2026, 6, 24));
}

#[test]
fn month_navigation_wraps_years_and_undoes() {
    let mut app = make_test_app();
    app.view_month = 1;
    assert_eq!(app.prev_month(), Refresh::All);
    assert_eq!((app.view_year, app.view_month), (2025, 12));
    app.next_month();
    assert_eq!((app.view_year, app.view_month), (2026, 1));
}

#[test]
fn day_navigation_follows_month() {
    let mut app = make_test_app();
    assert_eq!(app.prev_day(), Refresh::All);
    assert_eq!(app.selected_date, ymd(2026, 5, 31));
    assert_eq!((app.view_year, app.view_month), (2026, 5));
    assert_eq!(app.prev_day(), Refresh::SelectedDay);
    assert_eq!(app.selected_date, ymd(2026, 5, 30));
    app.next_day();
    app.next_day();
    assert_eq!(app.selected_date, ymd(2026, 6, 1));
    assert_eq!(app.view_month, 6);
    app.selected_date = ymd(2027, 3, 3);
    app.go_to_today();
    assert_eq!(app.selected_date, ymd(2026, 6, 1));
}

#[test]
fn week_dates_follow_first_day_of_week() {
    let mut app = make_test_app();
    app.selected_date = ymd(2026, 6, 3);
    let days = app.week_dates();
    assert_eq!(days.len(), 7);
    assert_eq!(days[0], ymd(2026, 5, 31));
    assert_eq!(days[6], ymd(2026, 6, 6));
}

#[test]
fn test_full_create_flow() {
    let mut app = make_test_app();
    app.selected_date = ymd(2026, 6, 15);
    app.open_create_modal();
    assert!(app.modal.is_some());
    let modal = app.modal.as_mut().unwrap();
    modal.fields[0].input = TextInput::with_value("Lunch", 200);
    modal.fields[2].input = TextInput::with_value("12:00", 5);
    modal.fields[3].input = TextInput::with_value("13:00", 5);
    let request = app.begin_save().expect("Save should succeed");
    assert_eq!(request.title, "Lunch");
    assert_eq!(request.date, ymd(2026, 6, 15));
    assert_eq!(request.start_time.as_deref(), Some("12:00"));
    let saved = app.finish_save(request.mode, Ok(()));
    assert!(saved, "Save should succeed");
    assert!(app.modal.is_none(), "Modal should close after save");
    assert_eq!(app.status_message.as_deref(), Some("Event created"));
}

#[test]
fn test_full_edit_flow() {
    let mut app = make_test_app();
    app.selected_day_events = vec![Event {
        start_time: Some("10:00".to_string()),
        end_time: Some("11:00".to_string()),
        ..make_test_event(1, "Meeting")
    }];
    app.selected_event_index = Some(0);
    let opened = app.open_edit_modal();
    assert!(opened, "Edit modal should open for local event");
    let modal = app.modal.as_ref().unwrap();
    assert_eq!(modal.mode, ModalMode::Edit);
    assert_eq!(modal.event_id, Some(1));
    assert_eq!(modal.fields[0].input.value(), "Meeting");
    let modal = app.modal.as_mut().unwrap();
    modal.fields[0].input = TextInput::with_value("Standup", 200);
    let request = app.begin_save().unwrap();
    assert_eq!(request.mode, ModalMode::Edit);
    assert_eq!(request.event_id, Some(1));
    assert_eq!(request.title, "Standup");
    assert!(app.finish_save(request.mode, Ok(())));
    assert!(app.modal.is_none());
    assert_eq!(app.status_message.as_deref(), Some("Event updated"));
}

#[test]
fn save_failure_keeps_the_form_open() {
    let mut app = make_test_app();
    app.open_create_modal();
    app.modal.as_mut().unwrap().fields[0].input = TextInput::with_value("Lunch", 200);
    let request = app.begin_save().unwrap();
    assert!(!app.finish_save(request.mode, Err("disk full".to_string())));
    assert_eq!(app.modal.as_ref().unwrap().error_message.as_deref(), Some("Save failed: disk full"));
}

#[test]
fn test_gcal_edit_blocked() {
    let mut app = make_test_app();
    app.selected_day_events = vec![make_gcal_event(1, "GCal Event")];
    app.selected_event_index = Some(0);
    let opened = app.open_edit_modal();
    assert!(!opened, "Edit modal should NOT open for gcal event");
    assert!(app.status_message.is_some());
    assert!(app.status_message.as_ref().unwrap().contains("Google Calendar"));
}

#[test]
fn test_gcal_delete_blocked() {
    let mut app = make_test_app();
    app.selected_day_events = vec![make_gcal_event(1, "GCal Event")];
    app.selected_event_index = Some(0);
    let deleted = app.begin_delete();
    assert!(deleted.is_none(), "Delete should be blocked for gcal event");
    assert!(app.status_message.as_ref().unwrap().contains("Google Calendar"));
}

#[test]
fn test_delete_last_event_resets_selection() {
    let mut app = make_test_app();
    app.selected_day_events = vec![make_test_event(9, "Only Event")];
    app.selected_event_index = Some(0);
    assert_eq!(app.begin_delete(), Some(9));
    let deleted = app.finish_delete(Some(1));
    assert!(deleted);
    assert_eq!(app.selected_event_index, None, "Selection should reset after deleting last event");
}

#[test]
fn delete_without_selection_or_failed_store() {
    let mut app = make_test_app();
    app.selected_day_events = vec![make_test_event(1, "A"), make_test_event(2, "B"), make_test_event(3, "C")];
    assert_eq!(app.begin_delete(), None);
    assert_eq!(app.status_message.as_deref(), Some("No event selected"));
    app.selected_event_index = Some(2);
    assert_eq!(app.begin_delete(), Some(3));
    assert!(!app.finish_delete(Some(0)));
    assert_eq!(app.status_message.as_deref(), Some("Failed to delete event"));
    assert!(app.finish_delete(Some(1)));
    assert_eq!(app.selected_event_index, Some(1));
    assert_eq!(app.status_message.as_deref(), Some("Event deleted"));
}

#[test]
fn test_modal_key_esc_closes() {
    let mut app = make_test_app();
    app.open_create_modal();
    assert!(app.modal.is_some());
    app.handle_modal_key(key(Key::Esc));
    assert!(app.modal.is_none(), "Esc should close modal");
}

#[test]
fn test_modal_key_char_inserts() {
    let mut app = make_test_app();
    app.open_create_modal();
    app.handle_modal_key(key(Key::Char('A')));
    let modal = app.modal.as_ref().unwrap();
    assert_eq!(modal.fields[0].input.value(), "A");
}

#[test]
fn test_modal_key_tab_cycles_fields() {
    let mut app = make_test_app();
    app.open_create_modal();
    app.handle_modal_key(key(Key::Tab));
    let modal = app.modal.as_ref().unwrap();
    assert_eq!(modal.focused_field, 1);
}

#[test]
fn modal_keys_edit_and_save() {
    let mut app = make_test_app();
    assert_eq!(app.handle_modal_key(key(Key::Enter)), ModalKeyAction::NotHandled);
    app.open_create_modal();
    app.handle_modal_key(key(Key::Char('a')));
    app.handle_modal_key(key(Key::Char('c')));
    app.handle_modal_key(key(Key::Left));
    app.handle_modal_key(key(Key::Char('b')));
    app.handle_modal_key(key(Key::End));
    app.handle_modal_key(key(Key::Backspace));
    assert_eq!(app.modal.as_ref().unwrap().fields[0].input.value(), "ab");
    app.handle_modal_key(KeyPress { key: Key::Tab, shift: true, ctrl: false });
    assert_eq!(app.modal.as_ref().unwrap().focused_field, 5);
    assert_eq!(app.handle_modal_key(key(Key::Char(' '))), ModalKeyAction::Handled);
    assert_eq!(app.modal.as_ref().unwrap().fields[5].input.value(), "daily");
    assert_eq!(app.handle_modal_key(key(Key::Enter)), ModalKeyAction::Handled);
    assert_eq!(app.modal.as_ref().unwrap().fields[5].input.value(), "weekly");
    app.handle_modal_key(key(Key::Tab));
    assert_eq!(app.handle_modal_key(key(Key::Enter)), ModalKeyAction::Save);
}

#[test]
fn test_modal_save_with_validation_error() {
    let mut app = make_test_app();
    app.open_create_modal();
    let saved = app.begin_save();
    assert!(saved.is_none(), "Save should fail with empty title");
    assert!(app.modal.is_some(), "Modal should stay open on validation error");
    let m = app.modal.as_ref().unwrap();
    assert_eq!(m.error_message, Some("Title is required".to_string()));
    assert_eq!(m.mode, ModalMode::Create);
    assert_eq!(m.event_id, None);
    assert_eq!(m.focused_field, 0);
    assert_eq!(m.fields[1].input.value(), "2026-06-01");
    assert_eq!(app.status_message, None);
}

#[test]
fn edit_form_stays_an_edit_form_after_a_validation_error() {
    let mut app = make_test_app();
    app.selected_day_events = vec![make_test_event(7, "Standup")];
    app.selected_event_index = Some(0);
    assert!(app.open_edit_modal());
    let mut m = app.modal.take().unwrap();
    m.focused_field = 2;
    m.fields[2].input = TextInput::with_value("25:00", 5);
    app.modal = Some(m);
    assert!(app.begin_save().is_none());
    let m = app.modal.as_ref().unwrap();
    assert_eq!(m.mode, ModalMode::Edit);
    assert_eq!(m.event_id, Some(7));
    assert_eq!(m.focused_field, 2);
    assert_eq!(m.fields[0].input.value(), "Standup");
    assert!(m.error_message.is_some());
}

#[test]
fn test_delete_confirm_with_y() {
    let mut app = make_test_app();
    app.selected_day_events = vec![make_test_event(1, "Test Event")];
    app.selected_event_index = Some(0);
    app.confirm_delete = true;
    let yes = app.delete_confirm_answer(key(Key::Char('y')));
    assert!(yes, "Should handle 'y' key");
    assert!(!app.confirm_delete, "confirm_delete should be false after handling");
    let id = app.begin_delete().unwrap();
    assert_eq!(id, 1, "the selected local event is the one to delete");
    assert!(app.finish_delete(Some(1)));
    assert_eq!(app.selected_event_index, None, "the only event was deleted, so nothing stays selected");
    assert_eq!(app.status_message, Some("Event deleted".to_string()));
    assert!(app.running);
    assert!(!app.confirm_delete);
}

#[test]
fn test_delete_confirm_with_n() {
    let mut app = make_test_app();
    app.selected_day_events = vec![make_test_event(1, "Test Event")];
    app.selected_event_index = Some(0);
    app.confirm_delete = true;
    let yes = app.delete_confirm_answer(key(Key::Char('n')));
    assert!(!yes);
    assert!(!app.confirm_delete, "confirm_delete should be false after handling");
    assert_eq!(app.selected_day_events.len(), 1, "Event should NOT be deleted");
    assert_eq!(app.status_message, Some("Delete cancelled".to_string()));
}

#[test]
fn test_delete_confirm_with_any_key_cancels() {
    let mut app = make_test_app();
    app.selected_day_events = vec![make_test_event(1, "Test Event")];
    app.selected_event_index = Some(0);
    app.confirm_delete = true;
    let yes = app.delete_confirm_answer(key(Key::Esc));
    assert!(!yes);
    assert!(!app.confirm_delete, "confirm_delete should be false after handling");
    assert_eq!(app.selected_day_events.len(), 1, "Event should NOT be deleted");
    assert_eq!(app.status_message, Some("Delete cancelled".to_string()));
}

#[test]
fn quit_stops_the_app() {
    let mut app = make_test_app();
    assert!(app.running);
    app.quit();
    assert!(!app.running);
}

#[test]
fn week_steps_round_trip_next_to_the_ends_of_the_range() {
    for start in [ymd(MIN_YEAR, 2, 10), ymd(2026, 6, 17), ymd(MAX_YEAR, 11, 20)] {
        let mut app = App::new(Config::default(), start);
        app.view_mode = ViewMode::Weekly;
        app.next_week();
        assert_eq!(app.selected_date.num_days_from_ce(), start.num_days_from_ce() + 7);
        app.prev_week();
        assert_eq!(app.selected_date, start);
        assert_eq!((app.view_year, app.view_month), (start.year, start.month));
        assert_eq!(app.view_mode, ViewMode::Weekly);
    }
    let mut app = App::new(Config::default(), ymd(MIN_YEAR, 2, 10));
    app.prev_week();
    assert_eq!(app.selected_date, ymd(MIN_YEAR, 2, 3));
}
