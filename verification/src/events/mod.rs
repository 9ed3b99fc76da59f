//! Calendar events: recurrence rules, stored-row decoding and the expansion of
//! recurring events onto the days they occur.

use vstd::prelude::*;
use crate::date::{Date, is_valid_ymd, lemma_day_number_bounds};
use crate::text::str_equals;

verus! {

/// Recurrence frequency for an event.
#[derive(Debug, Clone, Copy, PartialEq, Eq, Structural)]
pub enum Recurrence {
    Never,
    Daily,
    Weekly,
    Monthly,
}

/// The text under which a recurrence is stored.
pub open spec fn recurrence_label(r: Recurrence) -> Seq<char> {
    match r {
        Recurrence::Never => "none"@,
        Recurrence::Daily => "daily"@,
        Recurrence::Weekly => "weekly"@,
        Recurrence::Monthly => "monthly"@,
    }
}

/// The recurrence that a stored text names; anything unknown means none.
pub open spec fn recurrence_from_label(s: Seq<char>) -> Recurrence {
    if s == "daily"@ {
        Recurrence::Daily
    } else if s == "weekly"@ {
        Recurrence::Weekly
    } else if s == "monthly"@ {
        Recurrence::Monthly
    } else {
        Recurrence::Never
    }
}

impl Recurrence {
    /// Convert to the string stored in the database.
    pub fn to_str(&self) -> (r: &'static str)
        ensures
            r@ == recurrence_label(*self),
    {
        match self {
            Recurrence::Never => "none",
            Recurrence::Daily => "daily",
            Recurrence::Weekly => "weekly",
            Recurrence::Monthly => "monthly",
        }
    }

    /// Parse from the string stored in the database.
    pub fn from_stored(s: &str) -> (r: Self)
        ensures
            r == recurrence_from_label(s@),
    {
        if str_equals(s, "daily") {
            Recurrence::Daily
        } else if str_equals(s, "weekly") {
            Recurrence::Weekly
        } else if str_equals(s, "monthly") {
            Recurrence::Monthly
        } else {
            Recurrence::Never
        }
    }
}

/// Storing a recurrence and reading it back gives the same recurrence.
pub proof fn law_recurrence_label_roundtrip(r: Recurrence)
    ensures
        recurrence_from_label(recurrence_label(r)) == r,
{
    reveal_strlit("none");
    reveal_strlit("daily");
    reveal_strlit("weekly");
    reveal_strlit("monthly");
    assert("none"@.len() == 4 && "daily"@.len() == 5 && "weekly"@.len() == 6 && "monthly"@.len() == 7);
}

/// Where the event came from.
#[derive(Debug, Clone, Copy, PartialEq, Eq, Structural)]
pub enum EventSource {
    Local,
    GoogleCalendar,
}

pub open spec fn source_label(s: EventSource) -> Seq<char> {
    match s {
        EventSource::Local => "local"@,
        EventSource::GoogleCalendar => "gcal"@,
    }
}

impl EventSource {
    /// The text under which the source is stored and shown.
    pub fn to_str(&self) -> (r: &'static str)
        ensures
            r@ == source_label(*self),
    {
        match self {
            EventSource::Local => "local",
            EventSource::GoogleCalendar => "gcal",
        }
    }

    /// Parse a stored source: `gcal` names Google Calendar, anything else is local.
    pub fn from_stored(s: &str) -> (r: Self)
        ensures
            r == (if s@ == "gcal"@ { EventSource::GoogleCalendar } else { EventSource::Local }),
    {
        if str_equals(s, "gcal") {
            EventSource::GoogleCalendar
        } else {
            EventSource::Local
        }
    }
}

/// A calendar event.
#[derive(Debug, Clone)]
pub struct Event {
    pub id: i64,
    pub title: String,
    pub description: Option<String>,
    pub date: Date,
    pub start_time: Option<String>,
    pub end_time: Option<String>,
    pub source: EventSource,
    pub recurrence: Recurrence,
}

/// A stored event as the database hands it back: texts not yet interpreted.
#[derive(Debug, Clone)]
pub struct EventRow {
    pub id: i64,
    pub title: String,
    pub description: Option<String>,
    pub date: String,
    pub start_time: Option<String>,
    pub end_time: Option<String>,
    pub source: String,
    pub recurrence: Option<String>,
}

/// `e` with its date replaced by `d`.
pub open spec fn with_date(e: Event, d: Date) -> Event {
    Event { date: d, ..e }
}

/// A recurring event that starts on `start` has an instance on `q`: strictly
/// after the start, at most 365 days later, and on a day its rule selects.
pub open spec fn recurs_on(start: Date, rec: Recurrence, q: Date) -> bool {
    &&& rec != Recurrence::Never
    &&& start.days() < q.days() <= start.days() + 365
    &&& match rec {
        Recurrence::Daily => true,
        Recurrence::Weekly => start.spec_weekday_from_monday() == q.spec_weekday_from_monday(),
        Recurrence::Monthly => start.day == q.day,
        Recurrence::Never => false,
    }
}

/// What event `e` shows on day `q`: itself on its own date, a copy dated `q`
/// when it recurs on `q`, nothing otherwise.
pub open spec fn occurrence(e: Event, q: Date) -> Option<Event> {
    if e.date == q {
        Some(e)
    } else if recurs_on(e.date, e.recurrence, q) {
        Some(with_date(e, q))
    } else {
        None
    }
}

/// The events shown on day `q`, in the order of `rows`.
pub open spec fn occurrences_on(rows: Seq<Event>, q: Date) -> Seq<Event>
    decreases rows.len(),
{
    if rows.len() == 0 {
        Seq::empty()
    } else {
        let prev = occurrences_on(rows.drop_last(), q);
        match occurrence(rows.last(), q) {
            Some(e) => prev.push(e),
            None => prev,
        }
    }
}

/// Some event of `rows` shows on day `q`.
pub open spec fn has_occurrence(rows: Seq<Event>, q: Date) -> bool {
    exists|i: int| 0 <= i < rows.len() && occurrence(#[trigger] rows[i], q) is Some
}

pub open spec fn all_dates_valid(rows: Seq<Event>) -> bool {
    forall|i: int| 0 <= i < rows.len() ==> (#[trigger] rows[i]).date.valid()
}

fn copy_text(s: &Option<String>) -> (r: Option<String>)
    ensures
        r == *s,
{
    match s {
        Some(t) => Some(t.clone()),
        None => None,
    }
}

impl Event {
    /// A copy of this event dated `date`.
    pub fn with_date(&self, date: Date) -> (r: Event)
        ensures
            r == with_date(*self, date),
    {
        Event {
            id: self.id,
            title: self.title.clone(),
            description: copy_text(&self.description),
            date,
            start_time: copy_text(&self.start_time),
            end_time: copy_text(&self.end_time),
            source: self.source,
            recurrence: self.recurrence,
        }
    }

    /// Interpret a stored row; a date that does not parse becomes `fallback`.
    /// A date stored as `format_ymd` writes it reads back as the same date.
    pub fn from_row(row: &EventRow, fallback: Date) -> (r: Event)
        ensures
            r.id == row.id,
            r.title@ == row.title@,
            r.description == row.description,
            r.date == (match crate::date::parsed_date(row.date@) {
                Some(d) => d,
                None => fallback,
            }),
            r.start_time == row.start_time,
            r.end_time == row.end_time,
            r.source == (if row.source@ == "gcal"@ {
                EventSource::GoogleCalendar
            } else {
                EventSource::Local
            }),
            r.recurrence == (match row.recurrence {
                Some(t) => recurrence_from_label(t@),
                None => Recurrence::Never,
            }),
            forall|d: Date| d.valid() && row.date@ == #[trigger] crate::date::ymd_text(d) ==> r.date == d,
    {
        let date = match Date::parse_ymd(row.date.as_str()) {
            Some(d) => d,
            None => fallback,
        };
        let recurrence = match &row.recurrence {
            Some(t) => Recurrence::from_stored(t.as_str()),
            None => Recurrence::Never,
        };
        Event {
            id: row.id,
            title: row.title.clone(),
            description: copy_text(&row.description),
            date,
            start_time: copy_text(&row.start_time),
            end_time: copy_text(&row.end_time),
            source: EventSource::from_stored(row.source.as_str()),
            recurrence,
        }
    }
}

/// Check if a recurring event generates an instance on the given date.
/// False beyond the one-year expansion cap.
pub fn recurrence_matches(event: &Event, query_date: Date) -> (r: bool)
    requires
        event.date.valid(),
        query_date.valid(),
    ensures
        r == recurs_on(event.date, event.recurrence, query_date),
{
    if event.recurrence == Recurrence::Never {
        return false;
    }
    let start = event.date.num_days_from_ce();
    let q = query_date.num_days_from_ce();
    proof {
        lemma_day_number_bounds(event.date.year as int, event.date.month as int, event.date.day as int);
    }
    if q <= start {
        return false;
    }
    if q > start + 365 {
        return false;
    }
    match event.recurrence {
        Recurrence::Daily => true,
        Recurrence::Weekly => event.date.weekday_from_monday() == query_date.weekday_from_monday(),
        Recurrence::Monthly => event.date.day == query_date.day,
        Recurrence::Never => false,
    }
}

/// The events shown on `date`: each row dated `date` as it is, and each
/// recurring row with an instance on `date` as a copy dated `date`.
pub fn events_for_date(rows: &Vec<Event>, date: Date) -> (r: Vec<Event>)
    requires
        all_dates_valid(rows@),
        date.valid(),
    ensures
        r@ == occurrences_on(rows@, date),
{
    let mut result: Vec<Event> = Vec::new();
    let mut i: usize = 0;
    while i < rows.len()
        invariant
            i <= rows.len(),
            all_dates_valid(rows@),
            date.valid(),
            result@ == occurrences_on(rows@.take(i as int), date),
        decreases rows.len() - i,
    {
        let event = &rows[i];
        proof {
            assert(rows@.take(i + 1).drop_last() =~= rows@.take(i as int));
            assert(rows@.take(i + 1).last() == rows@[i as int]);
            assert(rows@[i as int].date.valid());
        }
        if event.date == date {
            result.push(event.with_date(date));
        } else if recurrence_matches(event, date) {
            result.push(event.with_date(date));
        }
        i = i + 1;
    }
    assert(rows@.take(rows.len() as int) =~= rows@);
    result
}

/// Whether some row shows on `date`.
fn any_occurrence(rows: &Vec<Event>, date: Date) -> (r: bool)
    requires
        all_dates_valid(rows@),
        date.valid(),
    ensures
        r == has_occurrence(rows@, date),
{
    let mut i: usize = 0;
    while i < rows.len()
        invariant
            i <= rows.len(),
            all_dates_valid(rows@),
            date.valid(),
            forall|j: int| 0 <= j < i ==> occurrence(#[trigger] rows@[j], date) is None,
        decreases rows.len() - i,
    {
        proof {
            assert(rows@[i as int].date.valid());
        }
        if rows[i].date == date || recurrence_matches(&rows[i], date) {
            assert(occurrence(rows@[i as int], date) is Some);
            return true;
        }
        i = i + 1;
    }
    false
}

/// The days of month `month` of `year` on which some row shows, in order.
pub open spec fn days_with_occurrences(rows: Seq<Event>, year: i32, month: u32, n: int) -> Seq<Date>
    decreases n,
{
    if n <= 0 {
        Seq::empty()
    } else {
        let d = Date { year, month, day: n as u32 };
        let prev = days_with_occurrences(rows, year, month, n - 1);
        if has_occurrence(rows, d) { prev.push(d) } else { prev }
    }
}

/// Dates of the given month that have events, recurring instances included,
/// in increasing order.
pub fn dates_with_events(rows: &Vec<Event>, year: i32, month: u32) -> (r: Vec<Date>)
    requires
        all_dates_valid(rows@),
        is_valid_ymd(year as int, month as int, 1),
        month < 12 || year < crate::date::MAX_YEAR,
    ensures
        r@ == days_with_occurrences(rows@, year, month, crate::date::month_length(year as int, month as int)),
        forall|i: int| 0 <= i < r@.len() ==> has_occurrence(rows@, #[trigger] r@[i]) && r@[i].valid()
            && r@[i].year == year && r@[i].month == month,
        forall|d: Date| d.valid() && d.year == year && d.month == month && has_occurrence(rows@, d)
            ==> r@.contains(d),
        forall|d: Date| d.valid() && d.year == year && d.month == month ==> (r@.contains(d) <==> occurrences_on(
            rows@,
            d,
        ).len() > 0),
{
    let n = crate::calendar::grid::days_in_month(year, month);
    let mut result: Vec<Date> = Vec::new();
    let mut day: usize = 1;
    while day <= n
        invariant
            1 <= day <= n + 1,
            n == crate::date::month_length(year as int, month as int),
            n <= 31,
            all_dates_valid(rows@),
            is_valid_ymd(year as int, month as int, 1),
            result@ == days_with_occurrences(rows@, year, month, day - 1),
            forall|i: int| 0 <= i < result@.len() ==> has_occurrence(rows@, #[trigger] result@[i])
                && result@[i].valid() && result@[i].year == year && result@[i].month == month
                && result@[i].day < day,
            forall|d: Date| d.valid() && d.year == year && d.month == month && d.day < day
                && has_occurrence(rows@, d) ==> result@.contains(d),
        decreases n + 1 - day,
    {
        let d = Date { year, month, day: day as u32 };
        let ghost before = result@;
        if any_occurrence(rows, d) {
            result.push(d);
            proof {
                assert(result@[result@.len() - 1] == d);
            }
        }
        proof {
            assert forall|e: Date| e.valid() && e.year == year && e.month == month && e.day < day + 1
                && has_occurrence(rows@, e) implies result@.contains(e) by {
                if e.day == day {
                    assert(e == d);
                    assert(result@[result@.len() - 1] == d);
                } else {
                    assert(before.contains(e));
                    let idx = choose|idx: int| 0 <= idx < before.len() && before[idx] == e;
                    assert(result@[idx] == e);
                }
            }
        }
        day = day + 1;
    }
    proof {
        assert forall|d: Date| d.valid() && d.year == year && d.month == month implies (result@.contains(d)
            <==> occurrences_on(rows@, d).len() > 0) by {
            law_marked_days_are_days_with_events(rows@, d);
            if result@.contains(d) {
                let idx = choose|idx: int| 0 <= idx < result@.len() && result@[idx] == d;
                assert(has_occurrence(rows@, result@[idx]));
            }
        }
    }
    result
}

/// Every event shown on a day is dated that day.
pub proof fn law_occurrences_are_dated_on_query(rows: Seq<Event>, q: Date)
    ensures
        forall|i: int| 0 <= i < occurrences_on(rows, q).len() ==> (#[trigger] occurrences_on(rows, q)[i]).date == q,
    decreases rows.len(),
{
    if rows.len() > 0 {
        law_occurrences_are_dated_on_query(rows.drop_last(), q);
    }
}

/// A day is marked as having events exactly when its list of events is not
/// empty: the days `dates_with_events` gives are the days whose
/// `events_for_date` is non-empty.
pub proof fn law_marked_days_are_days_with_events(rows: Seq<Event>, q: Date)
    ensures
        has_occurrence(rows, q) <==> occurrences_on(rows, q).len() > 0,
    decreases rows.len(),
{
    if rows.len() > 0 {
        let init = rows.drop_last();
        law_marked_days_are_days_with_events(init, q);
        if has_occurrence(init, q) {
            let i = choose|i: int| 0 <= i < init.len() && occurrence(#[trigger] init[i], q) is Some;
            assert(rows[i] == init[i]);
        }
        if has_occurrence(rows, q) {
            let i = choose|i: int| 0 <= i < rows.len() && occurrence(#[trigger] rows[i], q) is Some;
            if i < rows.len() - 1 {
                assert(init[i] == rows[i]);
            }
        }
        if occurrence(rows.last(), q) is Some {
            assert(occurrence(rows[rows.len() - 1], q) is Some);
        }
    } else {
        assert(!has_occurrence(rows, q));
    }
}

/// A monthly event shows on every day that carries its start's day of the
/// month, after its start and within a year of it, in whatever year and
/// month that day falls (a start on 2026-11-15 recurs on 2027-01-15), as a
/// copy dated that day; on no other day but its own date.
pub proof fn law_monthly_recurrence_on_same_day_of_month(e: Event, q: Date)
    requires
        e.recurrence == Recurrence::Monthly,
    ensures
        occurrence(e, q) is Some <==> (q == e.date || (e.date.days() < q.days() <= e.date.days() + 365
            && q.day == e.date.day)),
        q != e.date && occurrence(e, q) is Some ==> occurrence(e, q) == Some(with_date(e, q)),
{
}

/// A daily event shows on each of the 365 days after its start, as a copy
/// dated that day, and on no later or earlier day but its own date.
pub proof fn law_daily_recurrence_every_day_for_a_year(e: Event, q: Date)
    requires
        e.recurrence == Recurrence::Daily,
    ensures
        occurrence(e, q) is Some <==> (q == e.date || e.date.days() < q.days() <= e.date.days() + 365),
        q != e.date && occurrence(e, q) is Some ==> occurrence(e, q) == Some(with_date(e, q)),
{
}

/// A non-recurring event shows only on its own date.
pub proof fn law_single_event_shows_only_on_its_date(e: Event, q: Date)
    requires
        e.recurrence == Recurrence::Never,
    ensures
        occurrence(e, q) is Some <==> e.date == q,
{
}

/// No recurring instance lies before the start or more than a year after it.
pub proof fn law_recurrence_within_a_year(e: Event, q: Date)
    requires
        occurrence(e, q) is Some,
    ensures
        e.date.days() <= q.days() <= e.date.days() + 365,
{
}

/// A weekly event recurs exactly on the days a whole number of weeks after its
/// start, up to the one-year cap.
pub proof fn law_weekly_recurrence_every_seven_days(start: Date, q: Date)
    ensures
        recurs_on(start, Recurrence::Weekly, q) <==> start.days() < q.days() <= start.days() + 365
            && (q.days() - start.days()) % 7 == 0,
{
    lemma_same_weekday_residue(start.days() - 1, q.days() - 1);
}

/// Two day numbers fall on the same weekday exactly when they are a whole
/// number of weeks apart.
proof fn lemma_same_weekday_residue(x: int, y: int)
    ensures
        (x % 7 == y % 7) <==> ((y - x) % 7 == 0),
{
    vstd::arithmetic::div_mod::lemma_fundamental_div_mod(x, 7);
    vstd::arithmetic::div_mod::lemma_fundamental_div_mod(y, 7);
    let k = y / 7 - x / 7;
    if x % 7 == y % 7 {
        assert(y - x == k * 7) by (nonlinear_arith)
            requires
                x == 7 * (x / 7) + x % 7,
                y == 7 * (y / 7) + y % 7,
                x % 7 == y % 7,
                k == y / 7 - x / 7,
        ;
        vstd::arithmetic::div_mod::lemma_mod_multiples_basic(k, 7);
    }
    if (y - x) % 7 == 0 {
        vstd::arithmetic::div_mod::lemma_fundamental_div_mod(y - x, 7);
        let j = (y - x) / 7;
        vstd::arithmetic::div_mod::lemma_mod_multiples_vanish(j, x, 7);
        assert(y == 7 * j + x);
    }
}

} // verus!
