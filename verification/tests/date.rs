use solstice::date::Date;

#[test]
fn date_validity_follows_the_calendar() {
    assert!(Date::from_ymd_opt(2015, 3, 14).is_some());
    assert!(Date::from_ymd_opt(2015, 0, 14).is_none());
    assert!(Date::from_ymd_opt(2015, 2, 29).is_none());
    assert!(Date::from_ymd_opt(2024, 2, 29).is_some());
    assert!(Date::from_ymd_opt(400000, 1, 1).is_none());
}

#[test]
fn day_numbers_and_weekdays() {
    let d = Date::from_ymd_opt(1, 1, 1).unwrap();
    assert_eq!(d.num_days_from_ce(), 1);
    assert_eq!(d.weekday_from_monday(), 0);
    let jun1 = Date::from_ymd_opt(2026, 6, 1).unwrap();
    assert_eq!(jun1.weekday_from_monday(), 0);
    assert_eq!(jun1.weekday_from_sunday(), 1);
    assert_eq!(Date::from_num_days_from_ce_opt(730_000), Date::from_ymd_opt(1999, 9, 3));
    assert_eq!(Date::from_num_days_from_ce_opt(100_000_000), None);
}

#[test]
fn adding_days_crosses_months_and_years() {
    let d = Date::from_ymd_opt(2026, 12, 28).unwrap();
    assert_eq!(d.add_days(7), Date::from_ymd_opt(2027, 1, 4));
    assert_eq!(d.add_days(-28), Date::from_ymd_opt(2026, 11, 30));
    assert_eq!(d.succ_opt(), Date::from_ymd_opt(2026, 12, 29));
    assert_eq!(d.pred_opt(), Date::from_ymd_opt(2026, 12, 27));
    assert_eq!(d.add_days(1_000_000_000), None);
}

#[test]
fn formatting_and_parsing_ymd() {
    let d = Date::from_ymd_opt(2026, 6, 5).unwrap();
    assert_eq!(d.format_ymd(), "2026-06-05");
    assert_eq!(Date::from_ymd_opt(999, 1, 2).unwrap().format_ymd(), "0999-01-02");
    assert_eq!(Date::from_ymd_opt(-5, 1, 2).unwrap().format_ymd(), "-0005-01-02");
    assert_eq!(Date::from_ymd_opt(12345, 1, 2).unwrap().format_ymd(), "+12345-01-02");
    assert_eq!(Date::parse_ymd("2026-06-05"), Some(d));
    assert_eq!(Date::parse_ymd("15-06-2026"), None);
    assert_eq!(Date::parse_ymd("2026-02-30"), None);
}
