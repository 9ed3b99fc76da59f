//! Google Calendar events: reading the fields of an event as the Calendar API
//! returns it, the timing of access tokens, and the handling of API answers.

use vstd::prelude::*;
use chrono::{Datelike, Offset, Timelike};
use crate::date::{Date, decimal, parsed_date, zero_pad};
use crate::text::string_push;

verus! {

/// A calendar event as read from the Google Calendar API.
#[derive(Debug, Clone)]
pub struct GCalEvent {
    pub gcal_id: String,
    pub title: String,
    pub description: Option<String>,
    pub date: Date,
    pub start_time: Option<String>,
    pub end_time: Option<String>,
}

/// The `start` or `end` object of an API event: its `date` and `dateTime` texts.
#[derive(Debug, Clone)]
pub struct GCalTime {
    pub date: Option<String>,
    pub date_time: Option<String>,
}

/// The fields of an API event that are read: each present when it is a string.
#[derive(Debug, Clone)]
pub struct GCalItem {
    pub id: Option<String>,
    pub summary: Option<String>,
    pub description: Option<String>,
    pub start: Option<GCalTime>,
    pub end: Option<GCalTime>,
}

/// Why an API event could not be read.
#[derive(Debug, Clone)]
pub enum GCalParseError {
    MissingId,
    MissingStart,
    InvalidDate(String),
    InvalidDateTime(String),
    InvalidTimezone(String),
    NoStartTime,
}

/// The instant (seconds since the Unix epoch) that chrono reads from an
/// RFC 3339 text, if any.
pub uninterp spec fn rfc3339_timestamp(text: Seq<char>) -> Option<i64>;

/// The local date, hour and minute of instant `ts` in the IANA time zone named
/// `tz`, as chrono-tz computes them; `None` when the zone is unknown or the
/// local time lies outside chrono's range.
pub uninterp spec fn local_clock(tz: Seq<char>, ts: i64) -> Option<(Date, u32, u32)>;

/// A two-digit number as `%H` and `%M` write it.
pub open spec fn two_digits(n: u32) -> Seq<char> {
    zero_pad(decimal(n as nat), 2)
}

/// An hour and a minute written `HH:MM`.
pub open spec fn hm_text(h: u32, m: u32) -> Seq<char> {
    two_digits(h) + seq![':'] + two_digits(m)
}

/// The local date and `HH:MM` time of an RFC 3339 text in zone `tz`.
pub open spec fn local_date_time(tz: Seq<char>, text: Seq<char>) -> Option<(Date, Seq<char>)> {
    match rfc3339_timestamp(text) {
        Some(ts) => match local_clock(tz, ts) {
            Some(c) => Some((c.0, hm_text(c.1, c.2))),
            None => None,
        },
        None => None,
    }
}

/// An optional text that is present exactly when `s` is.
pub open spec fn same_text(a: Option<String>, b: Option<String>) -> bool {
    match (a, b) {
        (Some(x), Some(y)) => x@ == y@,
        (None, None) => true,
        _ => false,
    }
}

fn copy_text(s: &Option<String>) -> (r: Option<String>)
    ensures
        r == *s,
        same_text(r, *s),
{
    match s {
        Some(t) => Some(t.clone()),
        None => None,
    }
}

/// Writes a number below 100 with two digits.
fn write_two_digits(out: &mut String, n: u32)
    requires
        n < 100,
    ensures
        final(out)@ == old(out)@ + two_digits(n),
{
    let tens = n / 10;
    let ones = n % 10;
    let t = ((48 + tens) as u8) as char;
    let o = ((48 + ones) as u8) as char;
    string_push(out, t);
    string_push(out, o);
    proof {
        if n < 10 {
            assert(decimal(n as nat) == seq![crate::date::digit_char(n as int)]);
            assert(zero_pad(seq![crate::date::digit_char(n as int)], 2) == zero_pad(seq!['0'] + seq![crate::date::digit_char(n as int)], 2));
            assert(seq!['0'] + seq![crate::date::digit_char(n as int)] =~= seq!['0', crate::date::digit_char(n as int)]);
            assert(t == '0');
        } else {
            assert(decimal((n / 10) as nat) == seq![crate::date::digit_char((n / 10) as int)]);
            assert(decimal(n as nat) =~= seq![crate::date::digit_char((n / 10) as int), crate::date::digit_char((n % 10) as int)]);
        }
        assert(out@ =~= old(out)@ + two_digits(n));
    }
}

/// `HH:MM` for an hour and a minute.
pub fn format_hm(h: u32, m: u32) -> (r: String)
    requires
        h < 24,
        m < 60,
    ensures
        r@ == hm_text(h, m),
{
    let mut out = String::new();
    write_two_digits(&mut out, h);
    string_push(&mut out, ':');
    write_two_digits(&mut out, m);
    proof {
        assert(out@ =~= hm_text(h, m));
    }
    out
}

/// The local date and time of an RFC 3339 text in zone `tz`.
pub fn local_date_time_of(tz: &str, text: &str) -> (r: Option<(Date, String)>)
    ensures
        r is Some <==> local_date_time(tz@, text@) is Some,
        r matches Some(v) ==> v.0.valid() && local_date_time(tz@, text@) == Some((v.0, v.1@)),
{
    let ts = match chrono_rfc3339_timestamp(text) {
        Some(t) => t,
        None => return None,
    };
    match chrono_tz_local_clock(tz, ts) {
        Some((d, h, m)) => Some((d, format_hm(h, m))),
        None => None,
    }
}

/// Whether an API item reads as an event in zone `tz`: it has an id and a
/// start, and the start is a valid all-day date or a `dateTime` that reads in
/// that zone.
pub open spec fn item_reads(value: GCalItem, tz: Seq<char>) -> bool {
    &&& value.id is Some
    &&& value.start is Some
    &&& match value.start.unwrap().date {
        Some(d) => parsed_date(d@) is Some,
        None => match value.start.unwrap().date_time {
            Some(dt) => local_date_time(tz, dt@) is Some,
            None => false,
        },
    }
}

/// `e` is the event that the readable item `value` gives in zone `tz`.
pub open spec fn parses_to(e: GCalEvent, value: GCalItem, tz: Seq<char>) -> bool {
    &&& e.gcal_id@ == value.id.unwrap()@
    &&& e.title@ == (match value.summary { Some(t) => t@, None => "(No title)"@ })
    &&& same_text(e.description, value.description)
    &&& e.date.valid()
    &&& match value.start.unwrap().date {
        Some(d) => e.date == parsed_date(d@).unwrap() && e.start_time is None && e.end_time is None,
        None => {
            let l = local_date_time(tz, value.start.unwrap().date_time.unwrap()@).unwrap();
            &&& e.date == l.0
            &&& e.start_time matches Some(t) && t@ == l.1
            &&& end_time_matches(e.end_time, value.end, tz)
        },
    }
}

/// Parse a single Google Calendar event into a `GCalEvent`.
///
/// All-day events carry a `date`; timed events carry a `dateTime`, which is
/// converted to the IANA time zone `timezone`.
pub fn parse_event(value: &GCalItem, timezone: &str) -> (r: Result<GCalEvent, GCalParseError>)
    ensures
        r is Ok <==> item_reads(*value, timezone@),
        r matches Ok(e) ==> parses_to(e, *value, timezone@),
        value.id is None ==> r matches Err(GCalParseError::MissingId),
        value.id is Some && value.start is None ==> r matches Err(GCalParseError::MissingStart),
        (value.id is Some && value.start is Some) ==> {
            let s = value.start.unwrap();
            match s.date {
                Some(d) => parsed_date(d@) is None ==> (r matches Err(GCalParseError::InvalidDate(t)) && t@ == d@),
                None => match s.date_time {
                    Some(dt) => if rfc3339_timestamp(dt@) is None {
                        (r matches Err(GCalParseError::InvalidDateTime(t)) && t@ == dt@)
                    } else {
                        local_date_time(timezone@, dt@) is None
                            ==> (r matches Err(GCalParseError::InvalidTimezone(t)) && t@ == timezone@)
                    },
                    None => (r matches Err(GCalParseError::NoStartTime)),
                },
            }
        },
{
    let gcal_id = match &value.id {
        Some(id) => id.clone(),
        None => return Err(GCalParseError::MissingId),
    };
    let title = match &value.summary {
        Some(t) => t.clone(),
        None => "(No title)".to_owned(),
    };
    let description = copy_text(&value.description);
    let start = match &value.start {
        Some(s) => s,
        None => return Err(GCalParseError::MissingStart),
    };
    if let Some(date_str) = &start.date {
        let date = match Date::parse_ymd(date_str.as_str()) {
            Some(d) => d,
            None => return Err(GCalParseError::InvalidDate(date_str.clone())),
        };
        return Ok(GCalEvent { gcal_id, title, description, date, start_time: None, end_time: None });
    }
    let datetime_str = match &start.date_time {
        Some(s) => s,
        None => return Err(GCalParseError::NoStartTime),
    };
    let ts = match chrono_rfc3339_timestamp(datetime_str.as_str()) {
        Some(t) => t,
        None => return Err(GCalParseError::InvalidDateTime(datetime_str.clone())),
    };
    let (date, h, m) = match chrono_tz_local_clock(timezone, ts) {
        Some(c) => c,
        None => return Err(GCalParseError::InvalidTimezone(timezone.to_owned())),
    };
    let start_time = Some(format_hm(h, m));
    let end_time = match &value.end {
        Some(e) => match &e.date_time {
            Some(s) => match local_date_time_of(timezone, s.as_str()) {
                Some((_, t)) => Some(t),
                None => None,
            },
            None => None,
        },
        None => None,
    };
    Ok(GCalEvent { gcal_id, title, description, date, start_time, end_time })
}

/// The end time of a timed event: the local `HH:MM` of the end's `dateTime`
/// when it reads; absent otherwise.
pub open spec fn end_time_matches(end_time: Option<String>, end: Option<GCalTime>, tz: Seq<char>) -> bool {
    match end {
        Some(e) => match e.date_time {
            Some(s) => match local_date_time(tz, s@) {
                Some(l) => end_time matches Some(t) && t@ == l.1,
                None => end_time is None,
            },
            None => end_time is None,
        },
        None => end_time is None,
    }
}

/// The items of a page that read as events in zone `tz`, in order.
pub open spec fn readable_items(items: Seq<GCalItem>, tz: Seq<char>) -> Seq<GCalItem>
    decreases items.len(),
{
    if items.len() == 0 {
        Seq::empty()
    } else {
        let rest = readable_items(items.drop_last(), tz);
        if item_reads(items.last(), tz) {
            rest.push(items.last())
        } else {
            rest
        }
    }
}

/// The events that read from a page of API items, in order; items that do not
/// read are skipped.
pub fn parse_items(items: &Vec<GCalItem>, timezone: &str) -> (r: Vec<GCalEvent>)
    ensures
        r@.len() == readable_items(items@, timezone@).len(),
        forall|k: int| 0 <= k < r@.len() ==> parses_to(#[trigger] r@[k], readable_items(items@, timezone@)[k], timezone@),
{
    let mut out: Vec<GCalEvent> = Vec::new();
    let mut i: usize = 0;
    while i < items.len()
        invariant
            i <= items@.len(),
            out@.len() == readable_items(items@.take(i as int), timezone@).len(),
            forall|k: int| 0 <= k < out@.len()
                ==> parses_to(#[trigger] out@[k], readable_items(items@.take(i as int), timezone@)[k], timezone@),
        decreases items@.len() - i,
    {
        proof {
            assert(items@.take(i + 1).drop_last() =~= items@.take(i as int));
            assert(items@.take(i + 1).last() == items@[i as int]);
        }
        match parse_event(&items[i], timezone) {
            Ok(e) => out.push(e),
            Err(_) => {},
        }
        i = i + 1;
    }
    proof {
        assert(items@.take(items@.len() as int) =~= items@);
    }
    out
}

/// What to do about the access token before syncing.
#[derive(Debug, Clone, Copy, PartialEq, Eq, Structural)]
pub enum TokenStep {
    /// The stored token is fresh: use it.
    UseStored,
    /// The stored token expires within five minutes: refresh it (and
    /// authenticate again if that fails).
    Refresh,
    /// No token is stored: authenticate.
    Authenticate,
}

/// Seconds of validity a stored token must have left to be used as it is.
pub const TOKEN_FRESH_BUFFER_SECS: u64 = 300;

/// The token step for a stored token with `remaining` seconds left (`None`
/// inside when it has no expiry), or for no stored token.
pub fn token_step(stored: Option<Option<u64>>) -> (r: TokenStep)
    ensures
        stored is None ==> r == TokenStep::Authenticate,
        stored matches Some(rem) ==> r == (if (match rem { Some(t) => t > TOKEN_FRESH_BUFFER_SECS, None => true }) {
            TokenStep::UseStored
        } else {
            TokenStep::Refresh
        }),
{
    match stored {
        None => TokenStep::Authenticate,
        Some(rem) => if is_fresh(rem, TOKEN_FRESH_BUFFER_SECS) {
            TokenStep::UseStored
        } else {
            TokenStep::Refresh
        },
    }
}

/// What is missing to sync with Google Calendar.
#[derive(Debug, Clone, Copy, PartialEq, Eq, Structural)]
pub enum CredentialProblem {
    MissingClientId,
    MissingClientSecret,
}

/// A configured value that is present and not empty.
pub open spec fn given(v: Option<String>) -> bool {
    v matches Some(s) && s@.len() > 0
}

/// The OAuth client id and secret to sync with, or what is missing.
pub fn sync_credentials(client_id: &Option<String>, client_secret: &Option<String>) -> (r: Result<(String, String), CredentialProblem>)
    ensures
        !given(*client_id) ==> r == Err::<(String, String), CredentialProblem>(CredentialProblem::MissingClientId),
        given(*client_id) && !given(*client_secret) ==> r == Err::<(String, String), CredentialProblem>(
            CredentialProblem::MissingClientSecret,
        ),
        given(*client_id) && given(*client_secret) ==> (r matches Ok(p) && p.0@ == client_id.unwrap()@ && p.1@
            == client_secret.unwrap()@),
{
    let id = match client_id {
        Some(i) => if i.as_str().unicode_len() > 0 {
            i.clone()
        } else {
            return Err(CredentialProblem::MissingClientId);
        },
        None => return Err(CredentialProblem::MissingClientId),
    };
    let secret = match client_secret {
        Some(c) => if c.as_str().unicode_len() > 0 {
            c.clone()
        } else {
            return Err(CredentialProblem::MissingClientSecret);
        },
        None => return Err(CredentialProblem::MissingClientSecret),
    };
    Ok((id, secret))
}

/// A fetch of the primary calendar's events in a time window, page by page.
/// On an unauthorized answer the token is refreshed once and the fetch
/// starts over.
pub struct FetchSession {
    pub base_url: String,
    pub time_min: String,
    pub time_max: String,
    pub timezone: String,
    /// The events read so far.
    pub events: Vec<GCalEvent>,
    /// The page to ask for next, after the first.
    pub page_token: Option<String>,
    /// Whether an unauthorized answer may still be retried.
    pub allow_retry: bool,
}

/// The address of a page of events.
pub open spec fn events_url(base: Seq<char>, time_min: Seq<char>, time_max: Seq<char>, page: Option<String>) -> Seq<char> {
    base + "/calendar/v3/calendars/primary/events?singleEvents=true&orderBy=startTime&maxResults=2500&timeMin="@
        + time_min + "&timeMax="@ + time_max + match page {
        Some(p) => "&pageToken="@ + p@,
        None => Seq::empty(),
    }
}

impl FetchSession {
    /// A fetch from the API at `base_url` of the events between the RFC 3339
    /// instants `time_min` and `time_max`, read in zone `timezone`.
    pub fn new(base_url: String, time_min: String, time_max: String, timezone: String) -> (r: Self)
        ensures
            r.base_url == base_url,
            r.time_min == time_min,
            r.time_max == time_max,
            r.timezone == timezone,
            r.events@.len() == 0,
            r.page_token is None,
            r.allow_retry,
    {
        FetchSession { base_url, time_min, time_max, timezone, events: Vec::new(), page_token: None, allow_retry: true }
    }

    /// The address of the next page to ask for.
    pub fn request_url(&self) -> (r: String)
        ensures
            r@ == events_url(self.base_url@, self.time_min@, self.time_max@, self.page_token),
    {
        let mut url = self.base_url.clone();
        url.append("/calendar/v3/calendars/primary/events?singleEvents=true&orderBy=startTime&maxResults=2500&timeMin=");
        url.append(self.time_min.as_str());
        url.append("&timeMax=");
        url.append(self.time_max.as_str());
        match &self.page_token {
            Some(p) => {
                url.append("&pageToken=");
                url.append(p.as_str());
            },
            None => {},
        }
        proof {
            assert(url@ =~= events_url(self.base_url@, self.time_min@, self.time_max@, self.page_token));
        }
        url
    }

    /// What to do with an answer of HTTP status `status`.
    pub fn on_status(&self, status: u16) -> (r: ResponseAction)
        ensures
            status == 401 && self.allow_retry ==> r == ResponseAction::RefreshAndRetry,
            !(status == 401 && self.allow_retry) && !(200 <= status <= 299) ==> r == ResponseAction::Fail,
            !(status == 401 && self.allow_retry) && 200 <= status <= 299 ==> r == ResponseAction::Accept,
    {
        classify_response(status, self.allow_retry)
    }

    /// After the token was refreshed: start over from the first page, with
    /// no further retry.
    pub fn restart_after_refresh(&mut self)
        ensures
            final(self).events@.len() == 0,
            final(self).page_token is None,
            !final(self).allow_retry,
            final(self).base_url == old(self).base_url,
            final(self).time_min == old(self).time_min,
            final(self).time_max == old(self).time_max,
            final(self).timezone == old(self).timezone,
    {
        self.events = Vec::new();
        self.page_token = None;
        self.allow_retry = false;
    }

    /// Take in a page of `items` and the token of the next page; returns
    /// whether there is another page to fetch.
    pub fn add_page(&mut self, items: &Vec<GCalItem>, next_page_token: Option<String>) -> (r: bool)
        ensures
            r <==> next_page_token is Some,
            final(self).page_token == next_page_token,
            final(self).events@.len() == old(self).events@.len() + readable_items(items@, old(self).timezone@).len(),
            forall|i: int| 0 <= i < old(self).events@.len() ==> #[trigger] final(self).events@[i] == old(self).events@[i],
            forall|k: int| 0 <= k < readable_items(items@, old(self).timezone@).len() ==> parses_to(
                #[trigger] final(self).events@[old(self).events@.len() + k],
                readable_items(items@, old(self).timezone@)[k],
                old(self).timezone@,
            ),
            final(self).base_url == old(self).base_url,
            final(self).time_min == old(self).time_min,
            final(self).time_max == old(self).time_max,
            final(self).timezone == old(self).timezone,
            final(self).allow_retry == old(self).allow_retry,
    {
        let page = parse_items(items, self.timezone.as_str());
        let ghost before = self.events@;
        let mut i: usize = 0;
        while i < page.len()
            invariant
                i <= page@.len(),
                self.events@.len() == before.len() + i,
                forall|j: int| 0 <= j < before.len() ==> #[trigger] self.events@[j] == before[j],
                forall|k: int| 0 <= k < i ==> #[trigger] self.events@[before.len() + k] == page@[k],
                self.base_url == old(self).base_url,
                self.time_min == old(self).time_min,
                self.time_max == old(self).time_max,
                self.timezone == old(self).timezone,
                self.allow_retry == old(self).allow_retry,
                before == old(self).events@,
            decreases page@.len() - i,
        {
            let e = page[i].clone_event();
            self.events.push(e);
            i = i + 1;
        }
        let more = next_page_token.is_some();
        self.page_token = next_page_token;
        more
    }
}

impl GCalEvent {
    /// A copy of this event.
    pub fn clone_event(&self) -> (r: GCalEvent)
        ensures
            r == *self,
    {
        GCalEvent {
            gcal_id: self.gcal_id.clone(),
            title: self.title.clone(),
            description: copy_text(&self.description),
            date: self.date,
            start_time: copy_text(&self.start_time),
            end_time: copy_text(&self.end_time),
        }
    }
}

/// What to do with an API answer of HTTP status `status`.
#[derive(Debug, Clone, Copy, PartialEq, Eq, Structural)]
pub enum ResponseAction {
    /// Refresh the access token and fetch again, once.
    RefreshAndRetry,
    /// Give up with the status as the error.
    Fail,
    /// Read the answer.
    Accept,
}

/// An unauthorized answer is retried once after refreshing the token; any
/// other status outside 200..=299 fails.
pub fn classify_response(status: u16, allow_retry: bool) -> (r: ResponseAction)
    ensures
        status == 401 && allow_retry ==> r == ResponseAction::RefreshAndRetry,
        !(status == 401 && allow_retry) && !(200 <= status <= 299) ==> r == ResponseAction::Fail,
        !(status == 401 && allow_retry) && 200 <= status <= 299 ==> r == ResponseAction::Accept,
{
    if status == 401 && allow_retry {
        ResponseAction::RefreshAndRetry
    } else if status < 200 || status > 299 {
        ResponseAction::Fail
    } else {
        ResponseAction::Accept
    }
}

/// Seconds left before a token that lives `expires_in_secs` expires, `elapsed_secs`
/// after it was obtained; `None` when the token has no expiry.
pub fn remaining_time(expires_in_secs: Option<u64>, elapsed_secs: i64) -> (r: Option<u64>)
    ensures
        expires_in_secs is None ==> r is None,
        expires_in_secs matches Some(total) ==> r == Some(
            (if elapsed_secs <= 0 { total as int } else if elapsed_secs >= total { 0int } else { total - elapsed_secs }) as u64,
        ),
{
    let total = match expires_in_secs {
        Some(t) => t,
        None => return None,
    };
    let elapsed: u64 = if elapsed_secs < 0 { 0 } else { elapsed_secs as u64 };
    if elapsed >= total {
        Some(0)
    } else {
        Some(total - elapsed)
    }
}

/// A token is fresh while more than `buffer_secs` remain; one without expiry
/// is taken as valid.
pub fn is_fresh(remaining: Option<u64>, buffer_secs: u64) -> (r: bool)
    ensures
        r == (match remaining { Some(t) => t > buffer_secs, None => true }),
{
    match remaining {
        Some(t) => t > buffer_secs,
        None => true,
    }
}

/// A token's remaining time never grows as time passes.
pub proof fn law_remaining_time_decreases(total: u64, e1: i64, e2: i64)
    requires
        e1 <= e2,
    ensures
        ({
            let r1 = if e1 <= 0 { total as int } else if e1 >= total { 0int } else { total - e1 };
            let r2 = if e2 <= 0 { total as int } else if e2 >= total { 0int } else { total - e2 };
            0 <= r2 <= r1 <= total
        }),
{
}

impl GCalParseError {
    /// The message shown for this error.
    pub fn message(&self) -> (r: String)
        ensures
            r@ == (match self {
                GCalParseError::MissingId => "Event missing 'id' field"@,
                GCalParseError::MissingStart => "Event missing 'start' field"@,
                GCalParseError::InvalidDate(s) => "Invalid all-day date: "@ + s@,
                GCalParseError::InvalidDateTime(s) => "Invalid dateTime: "@ + s@,
                GCalParseError::InvalidTimezone(s) => "Invalid timezone: "@ + s@,
                GCalParseError::NoStartTime => "Event has neither 'date' nor 'dateTime' in start"@,
            }),
    {
        match self {
            GCalParseError::MissingId => "Event missing 'id' field".to_owned(),
            GCalParseError::MissingStart => "Event missing 'start' field".to_owned(),
            GCalParseError::InvalidDate(s) => {
                let mut m = "Invalid all-day date: ".to_owned();
                m.append(s.as_str());
                m
            },
            GCalParseError::InvalidDateTime(s) => {
                let mut m = "Invalid dateTime: ".to_owned();
                m.append(s.as_str());
                m
            },
            GCalParseError::InvalidTimezone(s) => {
                let mut m = "Invalid timezone: ".to_owned();
                m.append(s.as_str());
                m
            },
            GCalParseError::NoStartTime => "Event has neither 'date' nor 'dateTime' in start".to_owned(),
        }
    }
}

/// `chrono::DateTime::parse_from_rfc3339`, taken to its Unix timestamp: the
/// instant is named by `rfc3339_timestamp`.
#[verifier::external_body]
fn chrono_rfc3339_timestamp(text: &str) -> (r: Option<i64>)
    ensures
        r == rfc3339_timestamp(text@),
{
    chrono::DateTime::parse_from_rfc3339(text).ok().map(|dt| dt.timestamp())
}

/// `chrono::DateTime::with_timezone` into the `chrono_tz::Tz` named `tz`, read
/// as local date, hour and minute: named by `local_clock`.  The local time is
/// taken with `NaiveDateTime::checked_add_offset`, so `None` also comes back
/// when the zone's offset carries it outside chrono's range.  The date is a
/// valid date and the clock reads below 24:00.
#[verifier::external_body]
fn chrono_tz_local_clock(tz: &str, ts: i64) -> (r: Option<(Date, u32, u32)>)
    ensures
        r == local_clock(tz@, ts),
        r matches Some(c) ==> c.0.valid() && c.1 < 24 && c.2 < 60,
{
    let zone: chrono_tz::Tz = tz.parse().ok()?;
    let at = chrono::DateTime::from_timestamp(ts, 0)?.with_timezone(&zone);
    let local = at.naive_utc().checked_add_offset(at.offset().fix())?;
    Some((Date { year: local.year(), month: local.month(), day: local.day() }, local.hour(), local.minute()))
}

} // verus!
