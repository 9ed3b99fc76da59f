//! Holidays: the entries that holiday sources provide, the choice of source,
//! and the selection of one year's holidays.

use vstd::prelude::*;
use crate::date::{Date, parsed_date};
use crate::daymap::DayMap;
use crate::ui::paint::{int_text, int_text_of};

verus! {

/// A single holiday entry (shared across all sources).
#[derive(Debug, Clone)]
pub struct Holiday {
    /// Date in "YYYY-MM-DD" format
    pub date: String,
    /// Holiday name
    pub name: String,
    /// Holiday type (e.g., "national", "local", "observance")
    pub holiday_type: String,
}

pub fn default_holiday_type() -> (r: String)
    ensures
        r@ == "national"@,
{
    "national".to_owned()
}

/// Which source holidays come from.
#[derive(Debug, Clone, Copy, PartialEq, Eq, Structural)]
pub enum ProviderKind {
    /// Bundled JSON files.
    LocalFile,
    /// The Calendarific web service, with a local cache.
    Calendarific,
}

/// Create the appropriate holiday source based on configuration: with a
/// non-empty API key, Calendarific; otherwise the bundled files.
pub fn create_provider(api_key: Option<&str>) -> (r: ProviderKind)
    ensures
        r == (match api_key {
            Some(k) => if k@.len() > 0 { ProviderKind::Calendarific } else { ProviderKind::LocalFile },
            None => ProviderKind::LocalFile,
        }),
{
    match api_key {
        Some(key) => {
            if key.unicode_len() > 0 {
                ProviderKind::Calendarific
            } else {
                ProviderKind::LocalFile
            }
        },
        None => ProviderKind::LocalFile,
    }
}

/// The holiday that `e` gives for `year`, if its date parses and lies in that year.
pub open spec fn holiday_in_year(e: Holiday, year: i32) -> Option<Date> {
    match parsed_date(e.date@) {
        Some(d) => if d.year == year { Some(d) } else { None },
        None => None,
    }
}

/// The name of the last entry of `entries` that falls on `d` in `year`.
pub open spec fn holiday_name_on(entries: Seq<Holiday>, year: i32, d: Date) -> Option<Seq<char>>
    decreases entries.len(),
{
    if entries.len() == 0 {
        None
    } else if holiday_in_year(entries.last(), year) == Some(d) {
        Some(entries.last().name@)
    } else {
        holiday_name_on(entries.drop_last(), year, d)
    }
}

/// Every entry whose date reads as a date `d` of `year` makes `d` a holiday,
/// whatever the entry's type; the holiday takes the name of the last entry
/// on `d`.  No other date is a holiday.
pub proof fn law_every_dated_entry_of_the_year_is_a_holiday(entries: Seq<Holiday>, year: i32, d: Date)
    ensures
        holiday_name_on(entries, year, d) is Some <==> exists|i: int|
            0 <= i < entries.len() && parsed_date((#[trigger] entries[i]).date@) == Some(d) && d.year == year,
        forall|i: int|
            0 <= i < entries.len() && parsed_date((#[trigger] entries[i]).date@) == Some(d) && d.year == year
                && (forall|j: int| i < j < entries.len() ==> parsed_date(entries[j].date@) != Some(d))
                ==> holiday_name_on(entries, year, d) == Some(entries[i].name@),
    decreases entries.len(),
{
    if entries.len() > 0 {
        let init = entries.drop_last();
        let n = entries.len() - 1;
        law_every_dated_entry_of_the_year_is_a_holiday(init, year, d);
        if holiday_name_on(init, year, d) is Some {
            let i = choose|i: int| 0 <= i < init.len() && parsed_date((#[trigger] init[i]).date@) == Some(d) && d.year == year;
            assert(entries[i] == init[i]);
        }
        if exists|i: int| 0 <= i < entries.len() && parsed_date((#[trigger] entries[i]).date@) == Some(d) && d.year == year {
            let i = choose|i: int| 0 <= i < entries.len() && parsed_date((#[trigger] entries[i]).date@) == Some(d) && d.year == year;
            if i < n {
                assert(init[i] == entries[i]);
            }
        }
        assert forall|i: int|
            0 <= i < entries.len() && parsed_date((#[trigger] entries[i]).date@) == Some(d) && d.year == year
                && (forall|j: int| i < j < entries.len() ==> parsed_date(entries[j].date@) != Some(d))
                implies holiday_name_on(entries, year, d) == Some(entries[i].name@) by {
            if i < n {
                assert(parsed_date(entries[n].date@) != Some(d));
                assert(init[i] == entries[i]);
                assert forall|j: int| i < j < init.len() implies parsed_date(init[j].date@) != Some(d) by {
                    assert(init[j] == entries[j]);
                }
            }
        }
    }
}

/// The holidays of `year` among `entries`, by date; when two entries share a
/// date, the later one wins.
pub fn holidays_for_year(entries: &Vec<Holiday>, year: i32) -> (r: DayMap<String>)
    ensures
        r.wf(),
        forall|d: Date| #![trigger r.has(d)] r.has(d) <==> holiday_name_on(entries@, year, d) is Some,
        forall|d: Date| r.has(d) ==> Some(#[trigger] r.value_at(d)@) == holiday_name_on(entries@, year, d),
{
    let mut map: DayMap<String> = DayMap::new();
    let mut i: usize = 0;
    while i < entries.len()
        invariant
            i <= entries@.len(),
            map.wf(),
            forall|d: Date| #![trigger map.has(d)] map.has(d) <==> holiday_name_on(entries@.take(i as int), year, d) is Some,
            forall|d: Date| map.has(d) ==> Some(#[trigger] map.value_at(d)@) == holiday_name_on(entries@.take(i as int), year, d),
        decreases entries@.len() - i,
    {
        let entry = &entries[i];
        proof {
            assert(entries@.take(i + 1).drop_last() =~= entries@.take(i as int));
            assert(entries@.take(i + 1).last() == entries@[i as int]);
        }
        match Date::parse_ymd(entry.date.as_str()) {
            Some(date) => {
                if date.year == year {
                    map.insert(date, entry.name.clone());
                }
            },
            None => {},
        }
        i = i + 1;
    }
    proof {
        assert(entries@.take(entries@.len() as int) =~= entries@);
    }
    map
}

/// A holiday as the Calendarific service lists it.
#[derive(Debug, Clone)]
pub struct CalendarificHoliday {
    pub name: String,
    /// The holiday's date, `iso` in the service's answer
    pub date: String,
    /// The holiday's types, `type` in the service's answer
    pub holiday_type: Vec<String>,
}

/// The Calendarific service's answer: its status code and its holidays.
#[derive(Debug, Clone)]
pub struct CalendarificResponse {
    pub code: u16,
    pub holidays: Vec<CalendarificHoliday>,
}

/// The entry made from a Calendarific holiday: its first type, or "national".
pub open spec fn entry_from_service(h: CalendarificHoliday, e: Holiday) -> bool {
    &&& e.date@ == h.date@
    &&& e.name@ == h.name@
    &&& e.holiday_type@ == (if h.holiday_type@.len() > 0 { h.holiday_type@[0]@ } else { "national"@ })
}

/// The entries of a Calendarific answer; `Err` with the status code when the
/// service reported an error.
pub fn holidays_from_service(response: &CalendarificResponse) -> (r: Result<Vec<Holiday>, u16>)
    ensures
        response.code != 200 <==> r is Err,
        r matches Err(c) ==> c == response.code,
        r matches Ok(v) ==> v@.len() == response.holidays@.len() && forall|i: int| 0 <= i < v@.len() ==> entry_from_service(
            response.holidays@[i],
            #[trigger] v@[i],
        ),
{
    if response.code != 200 {
        return Err(response.code);
    }
    let mut out: Vec<Holiday> = Vec::new();
    let mut i: usize = 0;
    while i < response.holidays.len()
        invariant
            i <= response.holidays@.len(),
            out@.len() == i,
            forall|j: int| 0 <= j < i ==> entry_from_service(response.holidays@[j], #[trigger] out@[j]),
        decreases response.holidays@.len() - i,
    {
        let h = &response.holidays[i];
        let holiday_type = if h.holiday_type.len() > 0 {
            h.holiday_type[0].clone()
        } else {
            default_holiday_type()
        };
        out.push(Holiday { date: h.date.clone(), name: h.name.clone(), holiday_type });
        i = i + 1;
    }
    Ok(out)
}

/// Cache age below which a cached answer is used: 24 hours.
pub const CACHE_TTL_SECS: u64 = 86_400;

/// A cache file is fresh when its age is known and below the time to live.
pub fn cache_is_fresh(age_secs: Option<u64>) -> (r: bool)
    ensures
        r == (age_secs matches Some(a) && a < CACHE_TTL_SECS),
{
    match age_secs {
        Some(a) => a < CACHE_TTL_SECS,
        None => false,
    }
}

/// What `str::to_uppercase` makes of a text.
pub uninterp spec fn uppercase(s: Seq<char>) -> Seq<char>;

/// `str::to_uppercase`: the text in upper case, as Unicode defines it; the
/// result is named by `uppercase`.
#[verifier::external_body]
fn str_to_uppercase(s: &str) -> (r: String)
    ensures
        r@ == uppercase(s@),
{
    s.to_uppercase()
}

/// Loads holidays from JSON files bundled with the program, one per country.
pub struct LocalFileProvider {
    /// The directory of the files (the front end looks for it).
    pub assets_dir: String,
}

impl LocalFileProvider {
    pub fn new(assets_dir: String) -> (r: Self)
        ensures
            r.assets_dir == assets_dir,
    {
        LocalFileProvider { assets_dir }
    }

    /// The file that holds a country's holidays: `{COUNTRY}.json`.
    pub fn file_name(&self, country_code: &str) -> (r: String)
        ensures
            r@ == uppercase(country_code@) + ".json"@,
    {
        let mut name = str_to_uppercase(country_code);
        name.append(".json");
        name
    }
}

/// Fetches holidays from the Calendarific service, with a cache of its answers.
pub struct CalendarificProvider {
    pub api_key: String,
    /// The directory of the cache files (the front end finds it).
    pub cache_dir: String,
}

/// The address of the Calendarific holidays service.
pub open spec fn service_base() -> Seq<char> {
    "https://calendarific.com/api/v2/holidays"@
}

impl CalendarificProvider {
    pub fn new(api_key: String, cache_dir: String) -> (r: Self)
        ensures
            r.api_key == api_key,
            r.cache_dir == cache_dir,
    {
        CalendarificProvider { api_key, cache_dir }
    }

    /// The cache file of a country and year: `{COUNTRY}_{YEAR}.json`.
    pub fn cache_file_name(&self, country_code: &str, year: i32) -> (r: String)
        ensures
            r@ == uppercase(country_code@) + seq!['_'] + int_text(year as int) + ".json"@,
    {
        let mut name = str_to_uppercase(country_code);
        crate::text::string_push(&mut name, '_');
        let y = int_text_of(year);
        name.append(y.as_str());
        name.append(".json");
        name
    }

    /// The request for a country's national and local holidays of a year.
    pub fn request_url(&self, country_code: &str, year: i32) -> (r: String)
        ensures
            r@ == service_base() + "?api_key="@ + self.api_key@ + "&country="@ + uppercase(country_code@) + "&year="@ + int_text(
                year as int,
            ) + "&type=national,local"@,
    {
        let mut url = "https://calendarific.com/api/v2/holidays".to_owned();
        url.append("?api_key=");
        url.append(self.api_key.as_str());
        url.append("&country=");
        let c = str_to_uppercase(country_code);
        url.append(c.as_str());
        url.append("&year=");
        let y = int_text_of(year);
        url.append(y.as_str());
        url.append("&type=national,local");
        url
    }
}

/// Where the holidays of a country and year are taken from next.
#[derive(Debug, Clone, Copy, PartialEq, Eq, Structural)]
pub enum HolidayStep {
    /// Read the cached answer.
    ReadCache,
    /// Ask the service.
    AskService,
    /// Read the cached answer although it is old.
    ReadStaleCache,
    /// Report the service's error.
    GiveUp,
}

/// The first source: a fresh cache, else the service.
pub fn first_step(cache_age_secs: Option<u64>) -> (r: HolidayStep)
    ensures
        r == (if cache_age_secs matches Some(a) && a < CACHE_TTL_SECS { HolidayStep::ReadCache } else { HolidayStep::AskService }),
{
    if cache_is_fresh(cache_age_secs) {
        HolidayStep::ReadCache
    } else {
        HolidayStep::AskService
    }
}

/// After the service failed: an old cache if there is one, else the error.
pub fn after_service_failure(cache_exists: bool) -> (r: HolidayStep)
    ensures
        r == (if cache_exists { HolidayStep::ReadStaleCache } else { HolidayStep::GiveUp }),
{
    if cache_exists {
        HolidayStep::ReadStaleCache
    } else {
        HolidayStep::GiveUp
    }
}

/// How the service answered, by HTTP status.
#[derive(Debug, Clone, Copy, PartialEq, Eq, Structural)]
pub enum ServiceStatus {
    /// 429: the daily quota is used up.
    RateLimited,
    /// Any other status outside 200..=299.
    Failed,
    /// A successful answer, to be read.
    Answered,
}

/// Classify the service's HTTP status.
pub fn classify_service_status(status: u16) -> (r: ServiceStatus)
    ensures
        status == 429 ==> r == ServiceStatus::RateLimited,
        status != 429 && !(200 <= status <= 299) ==> r == ServiceStatus::Failed,
        200 <= status <= 299 ==> r == ServiceStatus::Answered,
{
    if status == 429 {
        ServiceStatus::RateLimited
    } else if status < 200 || status > 299 {
        ServiceStatus::Failed
    } else {
        ServiceStatus::Answered
    }
}

} // verus!
