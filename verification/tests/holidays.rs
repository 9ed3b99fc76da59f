use solstice::calendar::holidays::{
    after_service_failure, classify_service_status, first_step, CalendarificProvider, HolidayStep, LocalFileProvider,
    ServiceStatus,
};
use solstice::calendar::holidays::{
    cache_is_fresh, create_provider, default_holiday_type, holidays_for_year, holidays_from_service,
    CalendarificHoliday, CalendarificResponse, Holiday, ProviderKind, CACHE_TTL_SECS,
};
use solstice::date::Date;

fn ymd(y: i32, m: u32, d: u32) -> Date {
    Date::from_ymd_opt(y, m, d).unwrap()
}

fn holiday(date: &str, name: &str) -> Holiday {
    Holiday { date: date.to_string(), name: name.to_string(), holiday_type: "national".to_string() }
}

#[test]
fn test_create_provider_without_key() {
    assert_eq!(create_provider(None), ProviderKind::LocalFile);
}

#[test]
fn test_create_provider_with_empty_key() {
    assert_eq!(create_provider(Some("")), ProviderKind::LocalFile);
}

#[test]
fn create_provider_with_key_uses_service() {
    assert_eq!(create_provider(Some("SECRET-REDACTED")), ProviderKind::Calendarific);
}

#[test]
fn holidays_for_year_keeps_only_that_year() {
    let entries = vec![
        holiday("2026-01-01", "New Year"),
        holiday("2025-12-25", "Christmas 2025"),
        holiday("2026-12-25", "Christmas"),
        holiday("not a date", "Broken"),
    ];
    let map = holidays_for_year(&entries, 2026);
    assert_eq!(map.len(), 2);
    assert_eq!(map.get(ymd(2026, 1, 1)).map(|s| s.as_str()), Some("New Year"));
    assert_eq!(map.get(ymd(2026, 12, 25)).map(|s| s.as_str()), Some("Christmas"));
    assert!(map.get(ymd(2025, 12, 25)).is_none());
}

#[test]
fn holidays_for_year_later_entry_wins() {
    let entries = vec![holiday("2026-05-01", "First"), holiday("2026-05-01", "Second")];
    let map = holidays_for_year(&entries, 2026);
    assert_eq!(map.len(), 1);
    assert_eq!(map.get(ymd(2026, 5, 1)).map(|s| s.as_str()), Some("Second"));
}

#[test]
fn holidays_from_service_maps_entries() {
    let response = CalendarificResponse {
        code: 200,
        holidays: vec![
            CalendarificHoliday {
                name: "Labour Day".into(),
                date: "2026-05-01".into(),
                holiday_type: vec!["National holiday".into(), "Other".into()],
            },
            CalendarificHoliday { name: "Quiet Day".into(), date: "2026-05-02".into(), holiday_type: vec![] },
        ],
    };
    let entries = holidays_from_service(&response).unwrap();
    assert_eq!(entries.len(), 2);
    assert_eq!(entries[0].name, "Labour Day");
    assert_eq!(entries[0].date, "2026-05-01");
    assert_eq!(entries[0].holiday_type, "National holiday");
    assert_eq!(entries[1].holiday_type, "national");
}

#[test]
fn holidays_from_service_error_code() {
    let response = CalendarificResponse { code: 401, holidays: vec![] };
    assert_eq!(holidays_from_service(&response).unwrap_err(), 401);
}

#[test]
fn cache_freshness() {
    assert!(cache_is_fresh(Some(0)));
    assert!(cache_is_fresh(Some(CACHE_TTL_SECS - 1)));
    assert!(!cache_is_fresh(Some(CACHE_TTL_SECS)));
    assert!(!cache_is_fresh(None));
    assert_eq!(default_holiday_type(), "national");
}

#[test]
fn provider_file_names_and_request() {
    let local = LocalFileProvider::new("assets/holidays".to_string());
    assert_eq!(local.assets_dir, "assets/holidays");
    assert_eq!(local.file_name("co"), "CO.json");
    let service = CalendarificProvider::new("KEY".to_string(), "/tmp/cache".to_string());
    assert_eq!(service.cache_file_name("us", 2026), "US_2026.json");
    assert_eq!(service.cache_file_name("us", -12), "US_-12.json");
    assert_eq!(
        service.request_url("co", 2026),
        "https://calendarific.com/api/v2/holidays?api_key=KEY&country=CO&year=2026&type=national,local"
    );
}

#[test]
fn holiday_source_steps() {
    assert_eq!(first_step(Some(10)), HolidayStep::ReadCache);
    assert_eq!(first_step(Some(CACHE_TTL_SECS)), HolidayStep::AskService);
    assert_eq!(first_step(None), HolidayStep::AskService);
    assert_eq!(after_service_failure(true), HolidayStep::ReadStaleCache);
    assert_eq!(after_service_failure(false), HolidayStep::GiveUp);
    assert_eq!(classify_service_status(429), ServiceStatus::RateLimited);
    assert_eq!(classify_service_status(500), ServiceStatus::Failed);
    assert_eq!(classify_service_status(204), ServiceStatus::Answered);
}
