use solstice::app::{App, ViewMode};
use solstice::config::{Config, FirstDayOfWeek};
use solstice::date::Date;
use solstice::daymap::DayMap;
use solstice::ui::calendar_view::{hit_test_monthly, CalendarView};
use solstice::ui::event_list::hit_test_event_list;
use solstice::ui::layout::Rect;
use solstice::ui::weekly_view::{hit_test_weekly, WeeklyView};

fn ymd(y: i32, m: u32, d: u32) -> Date {
    Date::from_ymd_opt(y, m, d).unwrap()
}

fn make_test_app() -> App {
    let mut app = App::new(Config::default(), ymd(2026, 6, 1));
    app.view_year = 2026;
    app.view_month = 6;
    app.selected_date = ymd(2026, 6, 1);
    app.today = ymd(2026, 6, 1);
    app
}

fn make_weekly_app(selected: Date) -> App {
    let mut app = App::new(Config::default(), selected);
    app.view_year = 2026;
    app.view_month = 6;
    app.selected_date = selected;
    app.today = selected;
    app.view_mode = ViewMode::Weekly;
    app
}

#[test]
fn test_hit_test_event_list_correct() {
    let rect = Rect::new(10, 5, 20, 10);
    // Inner: x=11..28, y=6..13; idx = y - inner.y
    assert_eq!(hit_test_event_list(6, rect, 5), Some(0));
    assert_eq!(hit_test_event_list(7, rect, 5), Some(1));
    assert_eq!(hit_test_event_list(8, rect, 5), Some(2));
}

#[test]
fn test_hit_test_event_list_empty_returns_none() {
    let rect = Rect::new(10, 5, 20, 10);
    assert_eq!(hit_test_event_list(6, rect, 0), None);
}

#[test]
fn test_hit_test_event_list_outside_returns_none() {
    let rect = Rect::new(10, 5, 20, 10);
    assert_eq!(hit_test_event_list(4, rect, 5), None); // above
    assert_eq!(hit_test_event_list(15, rect, 5), None); // below
}

#[test]
fn hit_test_event_list_past_last_event_returns_none() {
    let rect = Rect::new(10, 5, 20, 10);
    assert_eq!(hit_test_event_list(9, rect, 3), None);
    assert_eq!(hit_test_event_list(8, rect, 3), Some(2));
}

#[test]
fn test_hit_test_monthly_correct() {
    let app = make_test_app();
    // Sunday start; June 1 2026 is a Monday, so the month starts in column 1.
    // Inner area x=1..38, y=1..18; weeks start at y=3, two rows per week,
    // columns 37 / 7 = 5 wide.
    let rect = Rect::new(0, 0, 40, 20);
    assert_eq!(hit_test_monthly(6, 3, rect, &app), Some(ymd(2026, 6, 1)));
    // Second line of the same cell.
    assert_eq!(hit_test_monthly(6, 4, rect, &app), Some(ymd(2026, 6, 1)));
    // Day 15: column 1, third week.
    assert_eq!(hit_test_monthly(6, 7, rect, &app), Some(ymd(2026, 6, 15)));
    assert_eq!(hit_test_monthly(6, 8, rect, &app), Some(ymd(2026, 6, 15)));
}

#[test]
fn test_hit_test_monthly_outside_returns_none() {
    let app = make_test_app();
    let rect = Rect::new(0, 0, 40, 20);
    assert_eq!(hit_test_monthly(0, 0, rect, &app), None); // border
    assert_eq!(hit_test_monthly(100, 100, rect, &app), None); // far outside
}

#[test]
fn hit_test_monthly_leading_cell_is_previous_month() {
    let app = make_test_app();
    let rect = Rect::new(0, 0, 40, 20);
    // Column 0 of the first week is Sunday May 31.
    assert_eq!(hit_test_monthly(1, 3, rect, &app), Some(ymd(2026, 5, 31)));
    // The header row holds no date.
    assert_eq!(hit_test_monthly(6, 1, rect, &app), None);
}

#[test]
fn hit_test_monthly_monday_start() {
    let mut app = make_test_app();
    app.config.first_day_of_week = FirstDayOfWeek::Monday;
    let rect = Rect::new(0, 0, 40, 20);
    assert_eq!(hit_test_monthly(1, 3, rect, &app), Some(ymd(2026, 6, 1)));
}

#[test]
fn test_hit_test_weekly_grid_cell_returns_date_and_hour() {
    let app = make_weekly_app(ymd(2026, 6, 14));
    // Week starts Sunday June 14; x=17 is the Monday column, y=5 the 09:00 row.
    let rect = Rect::new(0, 0, 80, 24);
    assert_eq!(hit_test_weekly(17, 5, rect, &app), Some((ymd(2026, 6, 15), Some(9))));
}

#[test]
fn test_hit_test_weekly_header_returns_date_only() {
    let app = make_weekly_app(ymd(2026, 6, 14));
    let rect = Rect::new(0, 0, 80, 24);
    assert_eq!(hit_test_weekly(17, 1, rect, &app), Some((ymd(2026, 6, 15), None)));
}

#[test]
fn test_hit_test_weekly_outside_returns_none() {
    let app = make_weekly_app(ymd(2026, 6, 15));
    let rect = Rect::new(0, 0, 80, 24);
    assert_eq!(hit_test_weekly(0, 0, rect, &app), None);
    assert_eq!(hit_test_weekly(200, 200, rect, &app), None);
}

#[test]
fn test_hit_test_weekly_clamps_hour_at_bounds() {
    let app = make_weekly_app(ymd(2026, 6, 14));
    let rect = Rect::new(0, 0, 80, 24);
    // First hour row at inner.y + 1 = 2 -> 06:00.
    let result = hit_test_weekly(10, 2, rect, &app);
    assert!(result.is_some());
    assert_eq!(result.unwrap().1, Some(6));
    // Last hour row at inner.y + 1 + 15 = 17 -> 21:00.
    let result = hit_test_weekly(10, 17, rect, &app);
    assert!(result.is_some());
    assert_eq!(result.unwrap().1, Some(21));
}

#[test]
fn hit_test_weekly_hour_stops_at_22() {
    let app = make_weekly_app(ymd(2026, 6, 14));
    let rect = Rect::new(0, 0, 80, 40);
    assert_eq!(hit_test_weekly(10, 30, rect, &app).unwrap().1, Some(22));
}

#[test]
fn clicks_on_drawn_days_select_those_days() {
    let app = make_test_app();
    let rect = Rect::new(0, 0, 40, 20);
    let holidays: DayMap<String> = DayMap::new();
    let counts: DayMap<usize> = DayMap::new();
    let view = CalendarView::new(2026, 6, app.today, app.selected_date, &holidays, &counts, &app.config);
    let layout = view.layout(rect.bordered_inner());
    let mut checked = 0;
    for (w, week) in layout.days.iter().enumerate() {
        for (c, day) in week.iter().enumerate() {
            assert_eq!(hit_test_monthly(day.x, day.y, rect, &app), Some(layout.cells[w][c].date));
            checked += 1;
        }
    }
    assert_eq!(checked, 35);
}

#[test]
fn clicks_on_drawn_week_columns_select_those_days() {
    let app = make_weekly_app(ymd(2026, 6, 14));
    let rect = Rect::new(0, 0, 80, 24);
    let holidays: DayMap<String> = DayMap::new();
    let week_events: DayMap<Vec<solstice::events::Event>> = DayMap::new();
    let view = WeeklyView::new(app.selected_date, app.selected_date, app.today, &holidays, &week_events, &app.config, 9);
    let layout = view.layout(rect.bordered_inner());
    for (c, header) in layout.headers.iter().enumerate() {
        assert_eq!(hit_test_weekly(header.x, 1, rect, &app), Some((layout.dates[c], None)));
        assert_eq!(hit_test_weekly(header.x, 2, rect, &app), Some((layout.dates[c], Some(6))));
    }
}
