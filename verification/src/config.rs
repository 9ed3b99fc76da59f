//! Application configuration and its defaults.

use vstd::prelude::*;

verus! {

/// Theme color configuration (Catppuccin Mocha defaults).
#[derive(Debug, Clone)]
pub struct ThemeColors {
    /// Base background color (hex)
    pub base: String,
    /// Surface color for panels
    pub surface: String,
    /// Primary text color
    pub text: String,
    /// Accent/highlight color (mauve)
    pub accent: String,
    /// Today highlight color (peach)
    pub today: String,
    /// Holiday marker color (red)
    pub holiday: String,
    /// Event dot color (green)
    pub event: String,
    /// Secondary text / muted (overlay0)
    pub muted: String,
}

pub fn default_base() -> (r: String)
    ensures
        r@ == "#1e1e2e"@,
{
    "#1e1e2e".to_owned()
}

pub fn default_surface0() -> (r: String)
    ensures
        r@ == "#313244"@,
{
    "#313244".to_owned()
}

pub fn default_text() -> (r: String)
    ensures
        r@ == "#cdd6f4"@,
{
    "#cdd6f4".to_owned()
}

pub fn default_accent() -> (r: String)
    ensures
        r@ == "#cba6f7"@,
{
    "#cba6f7".to_owned()
}

pub fn default_today() -> (r: String)
    ensures
        r@ == "#fab387"@,
{
    "#fab387".to_owned()
}

pub fn default_holiday() -> (r: String)
    ensures
        r@ == "#f38ba8"@,
{
    "#f38ba8".to_owned()
}

pub fn default_event() -> (r: String)
    ensures
        r@ == "#a6e3a1"@,
{
    "#a6e3a1".to_owned()
}

pub fn default_muted() -> (r: String)
    ensures
        r@ == "#6c7086"@,
{
    "#6c7086".to_owned()
}

impl ThemeColors {
    /// The Catppuccin Mocha palette.
    pub open spec fn is_default(self) -> bool {
        &&& self.base@ == "#1e1e2e"@
        &&& self.surface@ == "#313244"@
        &&& self.text@ == "#cdd6f4"@
        &&& self.accent@ == "#cba6f7"@
        &&& self.today@ == "#fab387"@
        &&& self.holiday@ == "#f38ba8"@
        &&& self.event@ == "#a6e3a1"@
        &&& self.muted@ == "#6c7086"@
    }
}

impl Default for ThemeColors {
    fn default() -> (r: Self)
        ensures
            r.is_default(),
    {
        Self {
            base: default_base(),
            surface: default_surface0(),
            text: default_text(),
            accent: default_accent(),
            today: default_today(),
            holiday: default_holiday(),
            event: default_event(),
            muted: default_muted(),
        }
    }
}

/// First day of the week.
#[derive(Debug, Clone, Copy, PartialEq, Eq, Structural)]
pub enum FirstDayOfWeek {
    Sunday,
    Monday,
}

impl Default for FirstDayOfWeek {
    fn default() -> (r: Self)
        ensures
            r == FirstDayOfWeek::Sunday,
    {
        FirstDayOfWeek::Sunday
    }
}

/// Application configuration.
#[derive(Debug, Clone)]
pub struct Config {
    /// IANA timezone (e.g., "America/Bogota")
    pub timezone: String,
    /// ISO 3166-1 alpha-2 country code for holidays
    pub country_code: String,
    /// Date format string (chrono format specifiers)
    pub date_format: String,
    /// Time format string (chrono format specifiers)
    pub time_format: String,
    /// First day of the week
    pub first_day_of_week: FirstDayOfWeek,
    /// Number of upcoming events to show
    pub upcoming_event_count: usize,
    /// Calendarific API key for online holiday fetching (optional)
    pub calendarific_api_key: Option<String>,
    /// Google OAuth2 Client ID for Calendar sync (optional)
    pub gcal_client_id: Option<String>,
    /// Google OAuth2 Client Secret for Calendar sync (optional)
    pub gcal_client_secret: Option<String>,
    /// Theme colors
    pub theme: ThemeColors,
}

pub fn default_timezone() -> (r: String)
    ensures
        r@ == "America/Bogota"@,
{
    "America/Bogota".to_owned()
}

pub fn default_country() -> (r: String)
    ensures
        r@ == "CO"@,
{
    "CO".to_owned()
}

pub fn default_date_format() -> (r: String)
    ensures
        r@ == "%A, %B %d, %Y"@,
{
    "%A, %B %d, %Y".to_owned()
}

pub fn default_time_format() -> (r: String)
    ensures
        r@ == "%H:%M:%S"@,
{
    "%H:%M:%S".to_owned()
}

pub fn default_upcoming_count() -> (r: usize)
    ensures
        r == 5,
{
    5
}

impl Config {
    /// The configuration used when no file exists.
    pub open spec fn is_default(self) -> bool {
        &&& self.timezone@ == "America/Bogota"@
        &&& self.country_code@ == "CO"@
        &&& self.date_format@ == "%A, %B %d, %Y"@
        &&& self.time_format@ == "%H:%M:%S"@
        &&& self.first_day_of_week == FirstDayOfWeek::Sunday
        &&& self.upcoming_event_count == 5
        &&& self.calendarific_api_key is None
        &&& self.gcal_client_id is None
        &&& self.gcal_client_secret is None
        &&& self.theme.is_default()
    }
}

impl Default for Config {
    fn default() -> (r: Self)
        ensures
            r.is_default(),
    {
        Self {
            timezone: default_timezone(),
            country_code: default_country(),
            date_format: default_date_format(),
            time_format: default_time_format(),
            first_day_of_week: FirstDayOfWeek::default(),
            upcoming_event_count: default_upcoming_count(),
            calendarific_api_key: None,
            gcal_client_id: None,
            gcal_client_secret: None,
            theme: ThemeColors::default(),
        }
    }
}

} // verus!
