use solstice::config::{Config, FirstDayOfWeek, ThemeColors};

#[test]
fn test_config_gcal_fields_default_to_none() {
    let config = Config::default();
    assert!(config.gcal_client_id.is_none(), "gcal_client_id should default to None");
    assert!(config.gcal_client_secret.is_none(), "gcal_client_secret should default to None");
}

#[test]
fn config_defaults() {
    let config = Config::default();
    assert_eq!(config.timezone, "America/Bogota");
    assert_eq!(config.country_code, "CO");
    assert_eq!(config.date_format, "%A, %B %d, %Y");
    assert_eq!(config.time_format, "%H:%M:%S");
    assert_eq!(config.first_day_of_week, FirstDayOfWeek::Sunday);
    assert_eq!(config.upcoming_event_count, 5);
    assert!(config.calendarific_api_key.is_none());
    let theme = ThemeColors::default();
    assert_eq!(theme.base, "#1e1e2e");
    assert_eq!(theme.surface, "#313244");
    assert_eq!(theme.text, "#cdd6f4");
    assert_eq!(theme.accent, "#cba6f7");
    assert_eq!(theme.today, "#fab387");
    assert_eq!(theme.holiday, "#f38ba8");
    assert_eq!(theme.event, "#a6e3a1");
    assert_eq!(theme.muted, "#6c7086");
}
