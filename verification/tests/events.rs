use solstice::date::Date;
use solstice::events::{
    dates_with_events, events_for_date, recurrence_matches, Event, EventRow, EventSource, Recurrence,
};

fn ymd(y: i32, m: u32, d: u32) -> Date {
    Date::from_ymd_opt(y, m, d).unwrap()
}

fn local_event(id: i64, title: &str, date: Date, start: Option<&str>, end: Option<&str>, recurrence: Recurrence) -> Event {
    Event {
        id,
        title: title.to_string(),
        description: None,
        date,
        start_time: start.map(|s| s.to_string()),
        end_time: end.map(|s| s.to_string()),
        source: EventSource::Local,
        recurrence,
    }
}

#[test]
fn test_recurrence_none_roundtrip() {
    let r = Recurrence::Never;
    assert_eq!(r.to_str(), "none");
    assert_eq!(Recurrence::from_stored("none"), Recurrence::Never);
}

#[test]
fn test_recurrence_daily_roundtrip() {
    let r = Recurrence::Daily;
    assert_eq!(r.to_str(), "daily");
    assert_eq!(Recurrence::from_stored("daily"), Recurrence::Daily);
}

#[test]
fn test_recurrence_weekly_roundtrip() {
    let r = Recurrence::Weekly;
    assert_eq!(r.to_str(), "weekly");
    assert_eq!(Recurrence::from_stored("weekly"), Recurrence::Weekly);
}

#[test]
fn test_recurrence_monthly_roundtrip() {
    let r = Recurrence::Monthly;
    assert_eq!(r.to_str(), "monthly");
    assert_eq!(Recurrence::from_stored("monthly"), Recurrence::Monthly);
}

#[test]
fn test_recurrence_from_str_unknown_defaults_to_none() {
    assert_eq!(Recurrence::from_stored("bogus"), Recurrence::Never);
    assert_eq!(Recurrence::from_stored(""), Recurrence::Never);
}

#[test]
fn test_event_has_recurrence_field() {
    let date = ymd(2026, 6, 1);
    let rows = vec![local_event(1, "Test", date, None, None, Recurrence::Never)];
    let events = events_for_date(&rows, date);
    assert_eq!(events.len(), 1);
    assert_eq!(events[0].recurrence, Recurrence::Never);
}

#[test]
fn test_add_event_with_recurrence() {
    let date = ymd(2026, 6, 1);
    let rows = vec![local_event(1, "Weekly Standup", date, Some("09:00"), Some("09:15"), Recurrence::Weekly)];
    let events = events_for_date(&rows, date);
    assert_eq!(events.len(), 1);
    assert_eq!(events[0].recurrence, Recurrence::Weekly);
    assert_eq!(events[0].title, "Weekly Standup");
}

#[test]
fn test_daily_recurrence_expansion() {
    let start = ymd(2026, 6, 1);
    let rows = vec![local_event(1, "Daily Standup", start, Some("09:00"), Some("09:15"), Recurrence::Daily)];
    let query = ymd(2026, 6, 15);
    let events = events_for_date(&rows, query);
    assert_eq!(events.len(), 1);
    assert_eq!(events[0].title, "Daily Standup");
    assert_eq!(events[0].date, query);
}

#[test]
fn test_weekly_recurrence_match() {
    let start = ymd(2026, 6, 1);
    let rows = vec![local_event(1, "Weekly Review", start, Some("14:00"), Some("15:00"), Recurrence::Weekly)];
    let query = ymd(2026, 6, 8);
    let events = events_for_date(&rows, query);
    assert_eq!(events.len(), 1);
    assert_eq!(events[0].title, "Weekly Review");
}

#[test]
fn test_weekly_recurrence_non_match() {
    let start = ymd(2026, 6, 1);
    let rows = vec![local_event(1, "Weekly Review", start, Some("14:00"), Some("15:00"), Recurrence::Weekly)];
    let query = ymd(2026, 6, 2);
    let events = events_for_date(&rows, query);
    assert_eq!(events.len(), 0);
}

#[test]
fn test_monthly_recurrence_match() {
    let start = ymd(2026, 6, 15);
    let rows = vec![local_event(1, "Monthly Report", start, None, None, Recurrence::Monthly)];
    let query = ymd(2026, 7, 15);
    let events = events_for_date(&rows, query);
    assert_eq!(events.len(), 1);
    assert_eq!(events[0].title, "Monthly Report");
}

#[test]
fn test_monthly_recurrence_non_match() {
    let start = ymd(2026, 6, 15);
    let rows = vec![local_event(1, "Monthly Report", start, None, None, Recurrence::Monthly)];
    let query = ymd(2026, 7, 1);
    let events = events_for_date(&rows, query);
    assert_eq!(events.len(), 0);
}

#[test]
fn test_recurrence_one_year_cap() {
    let start = ymd(2026, 6, 1);
    let rows = vec![local_event(1, "Daily Thing", start, None, None, Recurrence::Daily)];
    let query = start.add_days(366).unwrap();
    let events = events_for_date(&rows, query);
    assert_eq!(events.len(), 0);
    let query2 = start.add_days(364).unwrap();
    let events2 = events_for_date(&rows, query2);
    assert_eq!(events2.len(), 1);
}

#[test]
fn test_one_year_expansion_cap() {
    let start = ymd(2026, 6, 1);
    let rows = vec![local_event(1, "Daily", start, None, None, Recurrence::Daily)];
    let within = start.add_days(365).unwrap();
    assert_eq!(events_for_date(&rows, within).len(), 1);
    let beyond = start.add_days(366).unwrap();
    assert_eq!(events_for_date(&rows, beyond).len(), 0);
}

#[test]
fn test_monthly_recurrence_skips_day_31() {
    let start = ymd(2026, 1, 31);
    let rows = vec![local_event(1, "End of Month", start, None, None, Recurrence::Monthly)];
    let query = ymd(2026, 2, 28);
    assert_eq!(events_for_date(&rows, query).len(), 0);
    let query2 = ymd(2026, 3, 31);
    assert_eq!(events_for_date(&rows, query2).len(), 1);
}

#[test]
fn test_monthly_recurrence_skips_feb_31() {
    let start = ymd(2026, 1, 31);
    let rows = vec![local_event(1, "End of Month", start, None, None, Recurrence::Monthly)];
    let feb_events = events_for_date(&rows, ymd(2026, 2, 28));
    assert_eq!(feb_events.len(), 0);
    let mar_events = events_for_date(&rows, ymd(2026, 3, 31));
    assert_eq!(mar_events.len(), 1);
}

#[test]
fn test_no_recurrence_does_not_expand() {
    let start = ymd(2026, 6, 1);
    let rows = vec![local_event(1, "One-time", start, None, None, Recurrence::Never)];
    let query = ymd(2026, 6, 2);
    assert_eq!(events_for_date(&rows, query).len(), 0);
}

#[test]
fn test_dates_with_events_includes_recurring() {
    let start = ymd(2026, 6, 1);
    let rows = vec![local_event(1, "Daily Standup", start, Some("09:00"), Some("09:15"), Recurrence::Daily)];
    let dates = dates_with_events(&rows, 2026, 6);
    for day in 1..=30 {
        let d = ymd(2026, 6, day);
        assert!(dates.contains(&d), "Expected June {} to have event dot", day);
    }
}

#[test]
fn test_dates_with_events_weekly_only_matching_weekday() {
    let start = ymd(2026, 6, 1);
    let rows = vec![local_event(1, "Weekly", start, None, None, Recurrence::Weekly)];
    let dates = dates_with_events(&rows, 2026, 6);
    assert!(dates.contains(&ymd(2026, 6, 1)));
    assert!(dates.contains(&ymd(2026, 6, 8)));
    assert!(dates.contains(&ymd(2026, 6, 15)));
    assert!(dates.contains(&ymd(2026, 6, 22)));
    assert!(dates.contains(&ymd(2026, 6, 29)));
    assert!(!dates.contains(&ymd(2026, 6, 2)));
}

#[test]
fn test_recurring_events_calendar_dots() {
    let start = ymd(2026, 6, 1);
    let rows = vec![local_event(1, "Daily", start, None, None, Recurrence::Daily)];
    let dates = dates_with_events(&rows, 2026, 6);
    assert!(dates.contains(&ymd(2026, 6, 1)));
    assert!(dates.contains(&ymd(2026, 6, 15)));
    assert!(dates.contains(&ymd(2026, 6, 30)));
}

#[test]
fn dates_with_events_lists_single_events_of_the_month_only() {
    let rows = vec![
        local_event(1, "May", ymd(2026, 5, 31), None, None, Recurrence::Never),
        local_event(2, "June", ymd(2026, 6, 10), None, None, Recurrence::Never),
        local_event(3, "June again", ymd(2026, 6, 10), None, None, Recurrence::Never),
    ];
    assert_eq!(dates_with_events(&rows, 2026, 6), vec![ymd(2026, 6, 10)]);
}

#[test]
fn recurring_copy_keeps_fields_but_takes_query_date() {
    let mut e = local_event(7, "Gym", ymd(2026, 6, 1), Some("07:00"), Some("08:00"), Recurrence::Weekly);
    e.description = Some("legs".to_string());
    let rows = vec![e];
    let out = events_for_date(&rows, ymd(2026, 6, 8));
    assert_eq!(out.len(), 1);
    assert_eq!(out[0].id, 7);
    assert_eq!(out[0].date, ymd(2026, 6, 8));
    assert_eq!(out[0].description.as_deref(), Some("legs"));
    assert_eq!(out[0].start_time.as_deref(), Some("07:00"));
}

#[test]
fn recurrence_matches_rules() {
    let e = local_event(1, "x", ymd(2026, 6, 15), None, None, Recurrence::Monthly);
    assert!(recurrence_matches(&e, ymd(2026, 7, 15)));
    assert!(!recurrence_matches(&e, ymd(2026, 6, 15)));
    assert!(!recurrence_matches(&e, ymd(2026, 5, 15)));
    assert!(!recurrence_matches(&e, ymd(2027, 7, 15)));
}

#[test]
fn event_from_row_decodes_stored_texts() {
    let row = EventRow {
        id: 3,
        title: "Sync".to_string(),
        description: None,
        date: "2026-06-01".to_string(),
        start_time: Some("10:00".to_string()),
        end_time: None,
        source: "gcal".to_string(),
        recurrence: Some("weekly".to_string()),
    };
    let e = Event::from_row(&row, ymd(2000, 1, 1));
    assert_eq!(e.date, ymd(2026, 6, 1));
    assert_eq!(e.source, EventSource::GoogleCalendar);
    assert_eq!(e.recurrence, Recurrence::Weekly);
    let bad = EventRow { date: "garbage".to_string(), source: "local".to_string(), recurrence: None, ..row };
    let e2 = Event::from_row(&bad, ymd(2000, 1, 1));
    assert_eq!(e2.date, ymd(2000, 1, 1));
    assert_eq!(e2.source, EventSource::Local);
    assert_eq!(e2.recurrence, Recurrence::Never);
}

#[test]
fn event_source_labels() {
    assert_eq!(EventSource::Local.to_str(), "local");
    assert_eq!(EventSource::GoogleCalendar.to_str(), "gcal");
    assert_eq!(EventSource::from_stored("gcal"), EventSource::GoogleCalendar);
    assert_eq!(EventSource::from_stored("other"), EventSource::Local);
}

#[test]
fn stored_dates_read_back_as_written() {
    for d in [ymd(2026, 6, 15), ymd(1, 1, 1), ymd(0, 2, 29), ymd(9999, 12, 31), ymd(10000, 1, 1), ymd(-5, 3, 1)] {
        let row = EventRow {
            id: 1,
            title: "t".to_string(),
            description: None,
            date: d.format_ymd(),
            start_time: None,
            end_time: None,
            source: "local".to_string(),
            recurrence: None,
        };
        assert_eq!(Event::from_row(&row, ymd(2000, 1, 1)).date, d, "{}", row.date);
    }
    assert_eq!(ymd(10000, 1, 1).format_ymd(), "+10000-01-01");
    assert_eq!(ymd(-5, 3, 1).format_ymd(), "-0005-03-01");
}

#[test]
fn marked_days_are_the_days_with_listed_events() {
    let weekly = local_event(1, "Yoga", ymd(2026, 6, 1), None, None, Recurrence::Weekly);
    let single = local_event(2, "Dentist", ymd(2026, 6, 10), None, None, Recurrence::Never);
    let rows = vec![weekly, single];
    let marked = dates_with_events(&rows, 2026, 6);
    for d in 1..=30 {
        let day = ymd(2026, 6, d);
        assert_eq!(marked.contains(&day), !events_for_date(&rows, day).is_empty(), "June {}", d);
    }
    assert_eq!(marked, vec![ymd(2026, 6, 1), ymd(2026, 6, 8), ymd(2026, 6, 10), ymd(2026, 6, 15), ymd(2026, 6, 22), ymd(2026, 6, 29)]);
}
