use solstice::calendar::grid::{days_in_month, week_start_date, CalendarGrid, DayCell};
use solstice::config::FirstDayOfWeek;
use solstice::date::{Date, MAX_YEAR, MIN_YEAR};
use solstice::daymap::DayMap;

fn ymd(y: i32, m: u32, d: u32) -> Date {
    Date::from_ymd_opt(y, m, d).unwrap()
}

#[test]
fn test_days_in_month() {
    assert_eq!(days_in_month(2026, 1), 31);
    assert_eq!(days_in_month(2026, 2), 28);
    assert_eq!(days_in_month(2024, 2), 29); // leap year
    assert_eq!(days_in_month(2026, 4), 30);
    assert_eq!(days_in_month(2026, 12), 31);
}

#[test]
fn test_weekday_headers_sunday() {
    let grid = CalendarGrid::new(2026, 5, FirstDayOfWeek::Sunday);
    let headers = grid.weekday_headers();
    assert_eq!(headers[0], "Su");
    assert_eq!(headers[6], "Sa");
}

#[test]
fn test_weekday_headers_monday() {
    let grid = CalendarGrid::new(2026, 5, FirstDayOfWeek::Monday);
    let headers = grid.weekday_headers();
    assert_eq!(headers[0], "Mo");
    assert_eq!(headers[6], "Su");
}

#[test]
fn test_week_start_date_sunday_start() {
    let date = ymd(2026, 6, 3);
    let start = week_start_date(date, FirstDayOfWeek::Sunday);
    assert_eq!(start, ymd(2026, 5, 31));
}

#[test]
fn test_week_start_date_monday_start() {
    let date = ymd(2026, 6, 3);
    let start = week_start_date(date, FirstDayOfWeek::Monday);
    assert_eq!(start, ymd(2026, 6, 1));
}

#[test]
fn test_week_start_date_monday_start_on_sunday() {
    let date = ymd(2026, 6, 21);
    let start = week_start_date(date, FirstDayOfWeek::Monday);
    assert_eq!(start, ymd(2026, 6, 15));
}

#[test]
fn test_week_start_date_already_week_start() {
    let date = ymd(2026, 5, 31);
    let start = week_start_date(date, FirstDayOfWeek::Sunday);
    assert_eq!(start, ymd(2026, 5, 31));
}

#[test]
fn test_week_start_date_crosses_month() {
    let date = ymd(2026, 7, 1);
    let start = week_start_date(date, FirstDayOfWeek::Monday);
    assert_eq!(start, ymd(2026, 6, 29));
}

#[test]
fn test_week_start_date_crosses_year() {
    let date = ymd(2027, 1, 1);
    let start = week_start_date(date, FirstDayOfWeek::Monday);
    assert_eq!(start, ymd(2026, 12, 28));
}

#[test]
fn test_generate_cells_has_correct_structure() {
    let grid = CalendarGrid::new(2026, 5, FirstDayOfWeek::Sunday);
    let today = ymd(2026, 5, 15);
    let holidays: DayMap<String> = DayMap::new();
    let event_counts: DayMap<usize> = DayMap::new();

    let weeks = grid.generate_cells(today, &holidays, &event_counts);

    assert!(weeks.len() >= 4 && weeks.len() <= 6);
    for week in &weeks {
        assert_eq!(week.len(), 7);
    }
    let has_today = weeks.iter().flatten().any(|c| c.is_today);
    assert!(has_today);
}

#[test]
fn test_generate_cells_with_event_counts() {
    let grid = CalendarGrid::new(2026, 6, FirstDayOfWeek::Sunday);
    let today = ymd(2026, 6, 1);
    let holidays: DayMap<String> = DayMap::new();

    let mut event_counts: DayMap<usize> = DayMap::new();
    event_counts.insert(ymd(2026, 6, 1), 3);
    event_counts.insert(ymd(2026, 6, 15), 1);

    let weeks = grid.generate_cells(today, &holidays, &event_counts);

    let cells: Vec<&DayCell> = weeks.iter().flatten().collect();
    let jun1 = cells.iter().find(|c| c.date == ymd(2026, 6, 1)).unwrap();
    let jun15 = cells.iter().find(|c| c.date == ymd(2026, 6, 15)).unwrap();
    let jun10 = cells.iter().find(|c| c.date == ymd(2026, 6, 10)).unwrap();

    assert_eq!(jun1.event_count, 3);
    assert_eq!(jun15.event_count, 1);
    assert_eq!(jun10.event_count, 0);
}

#[test]
fn generate_cells_pads_with_neighbouring_months() {
    // June 2026 starts on a Monday; with Sunday first, May 31 pads the first week.
    let grid = CalendarGrid::new(2026, 6, FirstDayOfWeek::Sunday);
    let mut holidays: DayMap<String> = DayMap::new();
    holidays.insert(ymd(2026, 6, 24), "San Juan".to_string());
    holidays.insert(ymd(2026, 5, 31), "Padding".to_string());
    let weeks = grid.generate_cells(ymd(2026, 6, 3), &holidays, &DayMap::new());
    assert_eq!(weeks.len(), 5);
    assert_eq!(weeks[0][0].date, ymd(2026, 5, 31));
    assert!(!weeks[0][0].is_current_month);
    assert!(!weeks[0][0].is_holiday);
    assert_eq!(weeks[0][1].date, ymd(2026, 6, 1));
    assert_eq!(weeks[4][6].date, ymd(2026, 7, 4));
    assert!(!weeks[4][6].is_current_month);
    let san_juan = &weeks[3][3];
    assert_eq!(san_juan.date, ymd(2026, 6, 24));
    assert!(san_juan.is_holiday);
    assert_eq!(san_juan.holiday_name.as_deref(), Some("San Juan"));
    assert!(weeks[0][3].is_today);
}

#[test]
fn generate_cells_monday_start_february() {
    // February 2027 starts on a Monday and has 28 days: exactly four weeks.
    let grid = CalendarGrid::new(2027, 2, FirstDayOfWeek::Monday);
    let weeks = grid.generate_cells(ymd(2000, 1, 1), &DayMap::new(), &DayMap::new());
    assert_eq!(weeks.len(), 4);
    assert_eq!(weeks[0][0].date, ymd(2027, 2, 1));
    assert_eq!(weeks[3][6].date, ymd(2027, 2, 28));
}

#[test]
fn grids_at_the_edges_of_the_representable_range() {
    let holidays: DayMap<String> = DayMap::new();
    let counts: DayMap<usize> = DayMap::new();
    let today = ymd(2026, 6, 15);
    for (year, month) in [(MIN_YEAR, 2), (MAX_YEAR, 11)] {
        let grid = CalendarGrid::new(year, month, FirstDayOfWeek::Sunday);
        let weeks = grid.generate_cells(today, &holidays, &counts);
        let cells: Vec<&DayCell> = weeks.iter().flatten().collect();
        let in_month: Vec<&&DayCell> = cells.iter().filter(|c| c.is_current_month).collect();
        assert_eq!(in_month.len(), days_in_month(year, month));
        assert_eq!(in_month[0].date, ymd(year, month, 1));
        for pair in cells.windows(2) {
            assert_eq!(pair[1].date.num_days_from_ce(), pair[0].date.num_days_from_ce() + 1);
        }
    }
}
