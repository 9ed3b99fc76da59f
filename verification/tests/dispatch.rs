use solstice::app::{App, FocusedPanel, Key, KeyPress, ModalMode, Outcome, Refresh, ViewMode};
use solstice::config::Config;
use solstice::date::Date;
use solstice::events::{Event, EventSource, Recurrence};
use solstice::ui::layout::{compute_layout, Rect};

fn ymd(y: i32, m: u32, d: u32) -> Date {
    Date::from_ymd_opt(y, m, d).unwrap()
}

fn press(k: Key) -> KeyPress {
    KeyPress { key: k, shift: false, ctrl: false }
}

fn ctrl(c: char) -> KeyPress {
    KeyPress { key: Key::Char(c), shift: false, ctrl: true }
}

fn ev(id: i64, title: &str, source: EventSource) -> Event {
    Event {
        id,
        title: title.to_string(),
        description: None,
        date: ymd(2026, 6, 15),
        start_time: None,
        end_time: None,
        source,
        recurrence: Recurrence::Never,
    }
}

fn app() -> App {
    App::new(Config::default(), ymd(2026, 6, 15))
}

fn is_done(o: &Outcome) -> bool {
    matches!(o, Outcome::Done)
}

#[test]
fn ctrl_p_opens_and_closes_the_palette() {
    let mut a = app();
    assert!(is_done(&a.handle_key(ctrl('p'))));
    assert!(a.command_palette_open);
    // Other keys are absorbed.
    a.handle_key(press(Key::Char('x')));
    a.handle_key(press(Key::Char('n')));
    assert!(a.command_palette_open);
    assert!(a.modal.is_none());
    a.handle_key(press(Key::Esc));
    assert!(!a.command_palette_open);
    a.handle_key(ctrl('p'));
    a.handle_key(ctrl('p'));
    assert!(!a.command_palette_open);
    a.handle_key(ctrl('p'));
    a.handle_key(press(Key::Char('q')));
    assert!(!a.command_palette_open);
    assert!(a.running, "q closes the palette without quitting");
}

#[test]
fn enter_opens_details_of_the_selected_event() {
    let mut a = app();
    a.set_selected_day_events(vec![ev(1, "Standup", EventSource::Local), ev(2, "Lunch", EventSource::Local)]);
    // In the calendar panel Enter shows nothing.
    a.handle_key(press(Key::Enter));
    assert!(a.event_detail.is_none());
    a.handle_key(press(Key::Char('2')));
    assert_eq!(a.focused_panel, FocusedPanel::EventList);
    a.handle_key(press(Key::Down));
    a.handle_key(press(Key::Char('j')));
    assert_eq!(a.selected_event_index, Some(1));
    a.handle_key(press(Key::Enter));
    assert_eq!(a.event_detail.as_ref().map(|e| e.title.as_str()), Some("Lunch"));
    // Keys are absorbed while the details are open; Enter closes them.
    a.handle_key(press(Key::Char('k')));
    assert_eq!(a.selected_event_index, Some(1));
    a.handle_key(press(Key::Enter));
    assert!(a.event_detail.is_none());
}

#[test]
fn upcoming_panel_selection_and_details() {
    let mut a = app();
    a.upcoming_events = vec![ev(5, "Trip", EventSource::Local), ev(6, "Party", EventSource::Local)];
    a.handle_key(press(Key::Char('3')));
    a.handle_key(press(Key::Down));
    assert_eq!(a.selected_upcoming_index, Some(0));
    a.handle_key(press(Key::Down));
    a.handle_key(press(Key::Down));
    assert_eq!(a.selected_upcoming_index, Some(1));
    a.handle_key(press(Key::Up));
    assert_eq!(a.selected_upcoming_index, Some(0));
    a.handle_key(press(Key::Enter));
    assert_eq!(a.event_detail.as_ref().map(|e| e.id), Some(5));
    a.handle_key(press(Key::Esc));
    assert!(a.event_detail.is_none());
}

#[test]
fn tab_cycles_the_focus() {
    let mut a = app();
    a.handle_key(press(Key::Tab));
    assert_eq!(a.focused_panel, FocusedPanel::EventList);
    a.handle_key(press(Key::Tab));
    assert_eq!(a.focused_panel, FocusedPanel::Upcoming);
    a.handle_key(press(Key::Tab));
    assert_eq!(a.focused_panel, FocusedPanel::Calendar);
    a.handle_key(press(Key::Char('9')));
    assert_eq!(a.focused_panel, FocusedPanel::Calendar);
}

#[test]
fn calendar_navigation_keys() {
    let mut a = app();
    match a.handle_key(press(Key::Char('l'))) {
        Outcome::Reload(r) => assert_eq!(r, Refresh::SelectedDay),
        other => panic!("unexpected {:?}", other),
    }
    assert_eq!(a.selected_date, ymd(2026, 6, 16));
    a.handle_key(press(Key::Left));
    a.handle_key(press(Key::Char('h')));
    assert_eq!(a.selected_date, ymd(2026, 6, 14));
    match a.handle_key(press(Key::Char('j'))) {
        Outcome::Reload(r) => assert_eq!(r, Refresh::All),
        other => panic!("unexpected {:?}", other),
    }
    assert_eq!(a.selected_date, ymd(2026, 6, 21));
    a.handle_key(press(Key::Up));
    a.handle_key(press(Key::Up));
    assert_eq!(a.selected_date, ymd(2026, 6, 7));
    // Moving into another month follows with the view.
    for _ in 0..7 {
        a.handle_key(press(Key::Char('h')));
    }
    assert_eq!(a.selected_date, ymd(2026, 5, 31));
    assert_eq!((a.view_year, a.view_month), (2026, 5));
    a.handle_key(press(Key::Char('t')));
    assert_eq!(a.selected_date, ymd(2026, 6, 15));
    assert_eq!(a.view_month, 6);
}

#[test]
fn view_toggle_quit_and_unknown_keys() {
    let mut a = app();
    match a.handle_key(press(Key::Char('v'))) {
        Outcome::Reload(r) => assert_eq!(r, Refresh::All),
        other => panic!("unexpected {:?}", other),
    }
    assert_eq!(a.view_mode, ViewMode::Weekly);
    assert!(is_done(&a.handle_key(press(Key::Char('z')))));
    assert!(is_done(&a.handle_key(ctrl('x'))));
    a.handle_key(press(Key::Char('q')));
    assert!(!a.running);
}

#[test]
fn form_and_delete_flow_through_handle_key() {
    let mut a = app();
    a.handle_key(press(Key::Char('n')));
    assert!(matches!(a.modal.as_ref().map(|m| m.mode), Some(ModalMode::Create)));
    // Keys go to the form: typing then Enter asks to save.
    for c in "Gym".chars() {
        a.handle_key(press(Key::Char(c)));
    }
    match a.handle_key(press(Key::Enter)) {
        Outcome::Save(q) => {
            assert_eq!(q.title, "Gym");
            assert_eq!(q.date, ymd(2026, 6, 15));
        },
        other => panic!("unexpected {:?}", other),
    }
    a.handle_key(press(Key::Esc));
    assert!(a.modal.is_none());

    a.set_selected_day_events(vec![ev(7, "Dentist", EventSource::Local)]);
    a.selected_event_index = Some(0);
    a.handle_key(press(Key::Char('d')));
    assert!(a.confirm_delete);
    match a.handle_key(press(Key::Char('y'))) {
        Outcome::Delete(id) => assert_eq!(id, 7),
        other => panic!("unexpected {:?}", other),
    }
    assert!(!a.confirm_delete);
    a.handle_key(press(Key::Char('d')));
    assert!(is_done(&a.handle_key(press(Key::Char('n')))));
    assert_eq!(a.status_message.as_deref(), Some("Delete cancelled"));
    assert!(a.modal.is_none(), "the answer does not open the form");
}

#[test]
fn delete_of_a_google_event_is_refused_after_confirmation() {
    let mut a = app();
    a.set_selected_day_events(vec![ev(8, "Synced", EventSource::GoogleCalendar)]);
    a.selected_event_index = Some(0);
    a.handle_key(press(Key::Char('d')));
    assert!(is_done(&a.handle_key(press(Key::Char('Y')))));
    assert_eq!(a.status_message.as_deref(), Some("Cannot delete Google Calendar events"));
}

#[test]
fn clicks_focus_panels_and_select() {
    let mut a = app();
    a.set_selected_day_events(vec![ev(1, "A", EventSource::Local), ev(2, "B", EventSource::Local)]);
    let rects = compute_layout(Rect::new(0, 0, 80, 24));
    // The calendar panel starts at row 1; June 2026 with a Sunday start puts
    // June 1 in column 1 of the first week, two rows below the header.
    let cal = rects.calendar;
    let inner_x = cal.x + 1;
    let col = (cal.width - 2) / 7;
    let out = a.handle_click(inner_x + col, cal.y + 1 + 2, rects, None);
    assert!(matches!(out, Outcome::Reload(Refresh::SelectedDay)));
    assert_eq!(a.selected_date, ymd(2026, 6, 1));
    assert_eq!(a.focused_panel, FocusedPanel::Calendar);
    // The second row of the event list selects the second event.
    let list = rects.event_list;
    a.handle_click(list.x + 2, list.y + 2, rects, None);
    assert_eq!(a.focused_panel, FocusedPanel::EventList);
    assert_eq!(a.selected_event_index, Some(1));
    // A click on the upcoming panel focuses it.
    let up = rects.upcoming;
    a.handle_click(up.x + 2, up.y + 1, rects, None);
    assert_eq!(a.focused_panel, FocusedPanel::Upcoming);
    assert_eq!(a.selected_upcoming_index, None);
}

#[test]
fn clicks_dismiss_overlays_and_focus_form_fields() {
    let mut a = app();
    let rects = compute_layout(Rect::new(0, 0, 80, 24));
    a.handle_key(ctrl('p'));
    a.handle_click(40, 12, rects, None);
    assert!(!a.command_palette_open);
    a.handle_key(press(Key::Char('n')));
    a.handle_click(40, 12, rects, Some(3));
    assert_eq!(a.modal.as_ref().unwrap().focused_field, 3);
    a.handle_click(40, 12, rects, Some(9));
    assert_eq!(a.modal.as_ref().unwrap().focused_field, 3);
}

#[test]
fn event_counts_mark_each_day_once() {
    let mut a = app();
    a.event_dates = vec![ymd(2026, 6, 1), ymd(2026, 6, 3), ymd(2026, 6, 1)];
    let counts = a.event_counts();
    assert_eq!(counts.len(), 2);
    assert_eq!(counts.get(ymd(2026, 6, 1)), Some(&1));
    assert!(counts.get(ymd(2026, 6, 2)).is_none());
}

#[test]
fn pressing_v_twice_restores_the_view() {
    let mut a = app();
    a.handle_key(press(Key::Char('l')));
    let before = (a.view_mode, a.selected_date, a.view_year, a.view_month, a.focused_panel);
    a.handle_key(press(Key::Char('v')));
    assert_eq!(a.view_mode, ViewMode::Weekly);
    match a.handle_key(press(Key::Char('v'))) {
        Outcome::Reload(r) => assert_eq!(r, Refresh::All),
        other => panic!("unexpected {:?}", other),
    }
    assert_eq!((a.view_mode, a.selected_date, a.view_year, a.view_month, a.focused_panel), before);
}

#[test]
fn opening_and_closing_the_palette_changes_nothing() {
    let mut a = app();
    a.handle_key(press(Key::Tab));
    let before = (a.focused_panel, a.selected_date, a.view_mode, a.running, a.confirm_delete);
    a.handle_key(ctrl('p'));
    assert!(a.command_palette_open);
    a.handle_key(press(Key::Esc));
    assert!(!a.command_palette_open);
    assert!(a.modal.is_none() && a.event_detail.is_none());
    assert_eq!((a.focused_panel, a.selected_date, a.view_mode, a.running, a.confirm_delete), before);
}

#[test]
fn typing_in_the_form_and_cycling_recurrence_keep_other_fields() {
    let mut a = app();
    a.handle_key(press(Key::Char('n')));
    for c in "Gym".chars() {
        assert!(is_done(&a.handle_key(press(Key::Char(c)))));
    }
    assert_eq!(a.modal.as_ref().unwrap().fields[0].input.value(), "Gym");
    for _ in 0..5 {
        a.handle_key(press(Key::Tab));
    }
    assert_eq!(a.modal.as_ref().unwrap().focused_field, 5);
    a.handle_key(press(Key::Enter));
    a.handle_key(press(Key::Char(' ')));
    let m = a.modal.as_ref().unwrap();
    assert_eq!(m.fields[5].input.value(), "weekly");
    assert_eq!(m.fields[5].input.cursor_pos, 6);
    assert_eq!(m.fields[5].label, "Recurrence (Space to cycle)");
    assert_eq!(m.fields[0].input.value(), "Gym");
    assert_eq!(m.fields[1].input.value(), "2026-06-15");
    assert_eq!(m.mode, ModalMode::Create);
}
