//! The weekly calendar panel: what it draws and hit testing.

use vstd::prelude::*;
use crate::app::{App, parse_time, time_parse};
use crate::calendar::grid::{lemma_month_in_range, week_offset, week_start_date};
use crate::config::{Config, FirstDayOfWeek};
use crate::date::{Date, decimal, max_day_number, short_text, zero_pad};
use crate::daymap::DayMap;
use crate::events::Event;
use crate::ui::layout::{Rect, inside_border, min_int, sat_sub};
use crate::ui::paint::{Placed, Tone, decimal_text};
use crate::utils::{truncate_str, truncated};

verus! {

/// Width of the hour labels on the left of the weekly grid.
pub const LABEL_WIDTH: u16 = 6;

/// The grid row under `y` in a weekly view drawn in `rect`, counted from the
/// first hour row (06:00).
pub open spec fn weekly_row(y: int, rect: Rect) -> int {
    sat_sub(sat_sub(y, inside_border(rect).y as int), 1)
}

/// The (day column, hour) under `(x, y)` in a weekly view drawn in `rect`; hour
/// `None` is the header.  The row is taken as a byte, as the hour is one.
pub open spec fn weekly_cell_at(x: int, y: int, rect: Rect) -> Option<(int, Option<int>)> {
    let inner = inside_border(rect);
    let col_width = sat_sub(inner.width as int, LABEL_WIDTH as int) / 7;
    if inner.height < 3 || inner.width < 32 || col_width == 0 {
        None
    } else if x < inner.x || x >= inner.x + inner.width || y < inner.y || y >= inner.y + inner.height {
        None
    } else {
        let day_col = min_int(sat_sub(sat_sub(x, inner.x as int), LABEL_WIDTH as int) / col_width, 6);
        if y == inner.y {
            Some((day_col, None))
        } else {
            Some((day_col, Some(min_int(6 + weekly_row(y, rect) % 256, 22))))
        }
    }
}

/// Hit-test a weekly grid view: the date under `(x, y)` and, below the
/// header, the hour of the row (06:00 to 22:00).
pub fn hit_test_weekly(x: u16, y: u16, rect: Rect, app: &App) -> (r: Option<(Date, Option<u8>)>)
    requires
        app.wf(),
        weekly_cell_at(x as int, y as int, rect) matches Some(c) && c.1 is Some ==> weekly_row(y as int, rect) % 256 < 250,
    ensures
        r is Some <==> weekly_cell_at(x as int, y as int, rect) is Some,
        r matches Some(h) ==> {
            let cell = weekly_cell_at(x as int, y as int, rect)->Some_0;
            &&& h.0.valid()
            &&& h.0.days() == app.selected_date.days() - week_offset(app.config.first_day_of_week, app.selected_date) + cell.0
            &&& h.1 matches Some(hour) ==> cell.1 == Some(hour as int)
            &&& h.1 is None ==> cell.1 is None
        },
{
    let inner = rect.bordered_inner();
    if inner.height < 3 || inner.width < 32 {
        return None;
    }
    let label_width: u16 = LABEL_WIDTH;
    let col_width = (if inner.width >= label_width { inner.width - label_width } else { 0 }) / 7;
    if col_width == 0 {
        return None;
    }
    // Check if click is within the inner area
    if x < inner.x || x as u32 >= inner.x as u32 + inner.width as u32 || y < inner.y || y as u32
        >= inner.y as u32 + inner.height as u32 {
        return None;
    }
    proof {
        lemma_month_in_range(app.selected_date.year as int, app.selected_date.month as int);
        crate::date::lemma_day_number_bounds(app.selected_date.year as int, app.selected_date.month as int, app.selected_date.day as int);
    }
    let ws = week_start_date(app.selected_date, app.config.first_day_of_week);
    // Determine day column
    let dx = x - inner.x;
    let rel_x = if dx >= label_width { dx - label_width } else { 0 };
    let q = rel_x / col_width;
    let day_col = if q < 6 { q } else { 6 };
    let date = ws.add_days(day_col as i64).unwrap();
    // Header row?
    if y == inner.y {
        return Some((date, None));
    }
    // Grid rows: inner.y + 1 is the first hour row (06:00)
    let dy = y - inner.y;
    let row = if dy >= 1 { dy - 1 } else { 0 };
    let row8: u8 = (row % 256) as u8;
    let raw: u8 = 6 + row8;
    let hour = if raw > 22 { 22 } else { raw };
    Some((date, Some(hour)))
}

/// Which events of a day a cell of the weekly view shows.
#[derive(Debug, Clone, Copy, PartialEq, Eq, Structural)]
pub enum Pick {
    /// Events without a start time, shown in the header.
    AllDay,
    /// Events whose start time falls in the hour.
    StartsIn(u32),
    /// Events that started in an earlier hour and end after the start of this one.
    Continues(u32),
}

/// The hour of an event's start time, when it reads as `HH:MM`.
pub open spec fn start_hour(e: Event) -> Option<u32> {
    match e.start_time {
        Some(s) => match time_parse(s@) {
            Ok(t) => Some(t.0),
            Err(_) => None,
        },
        None => None,
    }
}

/// The hour of an event's end time, when it reads as `HH:MM`; midnight counts
/// as hour 24.
pub open spec fn end_hour(e: Event) -> Option<u32> {
    match e.end_time {
        Some(s) => match time_parse(s@) {
            Ok(t) => Some(if t.0 == 0 { 24 } else { t.0 }),
            Err(_) => None,
        },
        None => None,
    }
}

/// Whether a cell of kind `p` shows event `e`.
pub open spec fn picks(p: Pick, e: Event) -> bool {
    match p {
        Pick::AllDay => e.start_time is None,
        Pick::StartsIn(h) => start_hour(e) == Some(h),
        Pick::Continues(h) => match (start_hour(e), end_hour(e)) {
            (Some(sh), Some(eh)) => sh != h && sh < h < eh,
            _ => false,
        },
    }
}

/// The events among `evs` that a cell of kind `p` shows, in order.
pub open spec fn picked(evs: Seq<Event>, p: Pick) -> Seq<Event>
    decreases evs.len(),
{
    if evs.len() == 0 {
        Seq::empty()
    } else {
        let rest = picked(evs.drop_last(), p);
        if picks(p, evs.last()) {
            rest.push(evs.last())
        } else {
            rest
        }
    }
}

fn picks_event(p: Pick, e: &Event) -> (r: bool)
    ensures
        r == picks(p, *e),
{
    let start = match &e.start_time {
        Some(s) => match parse_time(s.as_str()) {
            Ok(t) => Some(t.0),
            Err(_) => None,
        },
        None => None,
    };
    match p {
        Pick::AllDay => e.start_time.is_none(),
        Pick::StartsIn(h) => start == Some(h),
        Pick::Continues(h) => {
            let sh = match start {
                Some(sh) => sh,
                None => return false,
            };
            if sh == h {
                return false;
            }
            let eh = match &e.end_time {
                Some(s) => match parse_time(s.as_str()) {
                    Ok(t) => if t.0 == 0 { 24 } else { t.0 },
                    Err(_) => return false,
                },
                None => return false,
            };
            sh < h && h < eh
        },
    }
}

/// How many events of `evs` a cell of kind `p` shows, and the index of the
/// first of them.
fn count_picked(evs: &Vec<Event>, p: Pick) -> (r: (usize, usize))
    ensures
        r.0 == picked(evs@, p).len(),
        r.0 > 0 ==> r.1 < evs@.len() && evs@[r.1 as int] == picked(evs@, p)[0],
{
    let mut count: usize = 0;
    let mut first: usize = 0;
    let mut i: usize = 0;
    while i < evs.len()
        invariant
            i <= evs@.len(),
            count == picked(evs@.take(i as int), p).len(),
            count <= i,
            count > 0 ==> first < i && evs@[first as int] == picked(evs@.take(i as int), p)[0],
        decreases evs@.len() - i,
    {
        proof {
            assert(evs@.take(i + 1).drop_last() =~= evs@.take(i as int));
            assert(evs@.take(i + 1).last() == evs@[i as int]);
        }
        if picks_event(p, &evs[i]) {
            if count == 0 {
                first = i;
            }
            count = count + 1;
        }
        i = i + 1;
    }
    proof {
        assert(evs@.take(evs@.len() as int) =~= evs@);
    }
    (count, first)
}

/// The events of day `d` among the week's events.
pub open spec fn day_events(week_events: DayMap<Vec<Event>>, d: Date) -> Seq<Event> {
    match week_events.spec_get(d) {
        Some(v) => v@,
        None => Seq::empty(),
    }
}

/// Abbreviated day names, Monday first.
pub open spec fn day_name(i: int) -> Seq<char> {
    if i == 0 { "Mon"@ } else if i == 1 { "Tue"@ } else if i == 2 { "Wed"@ } else if i == 3 { "Thu"@ }
    else if i == 4 { "Fri"@ } else if i == 5 { "Sat"@ } else { "Sun"@ }
}

/// The day name over column `col` of a week that starts on `first_day`.
pub open spec fn column_day_name(first_day: FirstDayOfWeek, col: int) -> Seq<char> {
    let start = match first_day {
        FirstDayOfWeek::Sunday => 6int,
        FirstDayOfWeek::Monday => 0int,
    };
    day_name((col + start) % 7)
}

fn day_name_text(first_day: FirstDayOfWeek, col: usize) -> (r: &'static str)
    requires
        col < 7,
    ensures
        r@ == column_day_name(first_day, col as int),
{
    let start: usize = match first_day {
        FirstDayOfWeek::Sunday => 6,
        FirstDayOfWeek::Monday => 0,
    };
    let i = (col + start) % 7;
    if i == 0 { "Mon" } else if i == 1 { "Tue" } else if i == 2 { "Wed" } else if i == 3 { "Thu" }
    else if i == 4 { "Fri" } else if i == 5 { "Sat" } else { "Sun" }
}

/// Whether the weekly view draws its grid inside `inner`.
pub open spec fn week_fits(inner: Rect) -> bool {
    inner.height >= 3 && inner.width >= 32
}

/// Width of a day column of the weekly view.
pub open spec fn week_col_width(inner: Rect) -> int {
    (inner.width - LABEL_WIDTH) / 7
}

/// Left edge of day column `col`.
pub open spec fn week_col_x(inner: Rect, col: int) -> int {
    inner.x + LABEL_WIDTH + col * week_col_width(inner)
}

/// The `+n` marker for `n` more events.
pub open spec fn more_text(n: nat) -> Seq<char> {
    seq!['+'] + decimal(n)
}

/// `o` is the `+n` marker drawn after `title` in a column that starts at `x`
/// and is `cw` wide, for `count` events in all, when it fits.
pub open spec fn overflow_ok(o: Option<Placed>, x: int, y: int, cw: int, title: Seq<char>, count: int, tone: Tone) -> bool {
    if count > 1 && cw - 1 >= 4 && x + title.len() + 1 < x + cw {
        o matches Some(p) && p.x == x + title.len() + 1 && p.y == y && p.text@ == more_text((count - 1) as nat) && p.tone == tone
    } else {
        o is None
    }
}

/// A header cell of the weekly view: the day name and, over it, the first
/// all-day event.
#[derive(Debug, Clone)]
pub struct WeekHeader {
    pub x: u16,
    pub y: u16,
    pub name: String,
    pub name_tone: Tone,
    /// The first all-day event's title, drawn over the name in the event tone.
    pub title: Option<String>,
    pub overflow: Option<Placed>,
}

/// What the header cell over column `col`, for day `date`, holds.
pub open spec fn header_ok(h: WeekHeader, inner: Rect, col: int, date: Date, today: Date, evs: Seq<Event>, first_day: FirstDayOfWeek) -> bool {
    let x = week_col_x(inner, col);
    let cw = week_col_width(inner);
    let ad = picked(evs, Pick::AllDay);
    &&& h.x == x
    &&& h.y == inner.y
    &&& h.name@ == column_day_name(first_day, col)
    &&& h.name_tone == (if date == today { Tone::Today } else { Tone::White })
    &&& if ad.len() > 0 && cw - 1 > 0 {
        h.title matches Some(t) && t@ == truncated(ad[0].title@, cw - 1)
    } else {
        h.title is None
    }
    &&& overflow_ok(h.overflow, x, inner.y as int, cw, if ad.len() > 0 { truncated(ad[0].title@, cw - 1) } else { Seq::empty() }, ad.len() as int, Tone::Event)
}

/// A cell of the hour grid of the weekly view.
#[derive(Debug, Clone)]
pub struct WeekCell {
    pub x: u16,
    pub y: u16,
    /// What is drawn at the cell's left edge, if anything.
    pub text: Option<String>,
    pub tone: Tone,
    pub overflow: Option<Placed>,
}

/// What the cell of column `col` in the row of `hour` holds: the first event
/// starting in that hour (and a marker for more), else a bar for an event
/// running through it, else a highlight when it is the selected cell.
pub open spec fn cell_ok(c: WeekCell, inner: Rect, col: int, row: int, date: Date, evs: Seq<Event>, highlighted: bool) -> bool {
    let hour = 6 + row;
    let x = week_col_x(inner, col);
    let y = inner.y + 1 + row;
    let cw = week_col_width(inner);
    let tone = if highlighted { Tone::TimedReversed } else { Tone::Timed };
    let st = picked(evs, Pick::StartsIn(hour as u32));
    let ct = picked(evs, Pick::Continues(hour as u32));
    &&& c.x == x
    &&& c.y == y
    &&& if st.len() > 0 {
        &&& c.text matches Some(t) && t@ == truncated(st[0].title@, cw - 1)
        &&& c.tone == tone
        &&& overflow_ok(c.overflow, x, y, cw, truncated(st[0].title@, cw - 1), st.len() as int, tone)
    } else if ct.len() > 0 {
        c.text matches Some(t) && t@ == seq!['│'] && c.tone == tone && c.overflow is None
    } else if highlighted {
        c.text matches Some(t) && t@ == seq![' '] && c.tone == Tone::Reversed && c.overflow is None
    } else {
        c.text is None && c.overflow is None
    }
}

/// The label of an hour row: `HH:00 `.
pub open spec fn hour_label(h: int) -> Seq<char> {
    zero_pad(decimal(h as nat), 2) + seq![':', '0', '0', ' ']
}

/// A row of the hour grid: its label and its seven cells.
#[derive(Debug, Clone)]
pub struct WeekRow {
    pub label: Placed,
    pub cells: Vec<WeekCell>,
}

/// What the weekly view draws inside its border.
#[derive(Debug, Clone)]
pub struct WeekLayout {
    /// The dates of the seven columns.
    pub dates: Vec<Date>,
    pub headers: Vec<WeekHeader>,
    pub rows: Vec<WeekRow>,
}

/// Number of hour rows that fit: 06:00 up to 21:00, one per line below the header.
pub open spec fn week_rows_shown(inner: Rect) -> int {
    if week_fits(inner) && week_col_width(inner) > 0 { min_int(16, inner.height - 1) } else { 0 }
}

/// Weekly calendar view: seven days with their events by hour.
pub struct WeeklyView<'a> {
    pub week_start: Date,
    pub selected_date: Date,
    pub today: Date,
    pub holidays: &'a DayMap<String>,
    pub week_events: &'a DayMap<Vec<Event>>,
    pub config: &'a Config,
    pub focused: bool,
    pub selected_hour: u8,
}

impl<'a> WeeklyView<'a> {
    pub fn new(
        week_start: Date,
        selected_date: Date,
        today: Date,
        holidays: &'a DayMap<String>,
        week_events: &'a DayMap<Vec<Event>>,
        config: &'a Config,
        selected_hour: u8,
    ) -> (r: Self)
        ensures
            r.week_start == week_start,
            r.selected_date == selected_date,
            r.today == today,
            r.holidays == holidays,
            r.week_events == week_events,
            r.config == config,
            !r.focused,
            r.selected_hour == selected_hour,
    {
        WeeklyView { week_start, selected_date, today, holidays, week_events, config, focused: false, selected_hour }
    }

    pub fn with_focused(self, focused: bool) -> (r: Self)
        ensures
            r.focused == focused,
            r.week_start == self.week_start,
            r.selected_date == self.selected_date,
            r.today == self.today,
            r.holidays == self.holidays,
            r.week_events == self.week_events,
            r.config == self.config,
            r.selected_hour == self.selected_hour,
    {
        WeeklyView { focused, ..self }
    }

    /// The view's title: ` Week of Jun 14 `.
    pub fn title(&self) -> (r: String)
        requires
            self.week_start.valid(),
        ensures
            r@ == " Week of "@ + short_text(self.week_start) + seq![' '],
    {
        let mut t = " Week of ".to_owned();
        let d = self.week_start.format_short();
        t.append(d.as_str());
        crate::text::string_push(&mut t, ' ');
        t
    }

    /// The tone of the border: the accent when focused.
    pub fn border_tone(&self) -> (r: Tone)
        ensures
            r == (if self.focused { Tone::Accent } else { Tone::Muted }),
    {
        if self.focused { Tone::Accent } else { Tone::Muted }
    }

    /// What the view draws inside its border `inner`: the header with day
    /// names and all-day events, then one row per hour from 06:00.
    pub fn layout(&self, inner: Rect) -> (r: WeekLayout)
        requires
            inner.fits(),
            self.week_start.valid(),
            self.week_start.days() + 6 <= max_day_number(),
            self.week_events.wf(),
        ensures
            r.dates@.len() == 7,
            forall|c: int| 0 <= c < 7 ==> (#[trigger] r.dates@[c]).valid() && r.dates@[c].days() == self.week_start.days() + c,
            !(week_fits(inner) && week_col_width(inner) > 0) ==> r.headers@.len() == 0,
            week_fits(inner) && week_col_width(inner) > 0 ==> r.headers@.len() == 7,
            forall|c: int| 0 <= c < r.headers@.len() ==> header_ok(#[trigger] r.headers@[c], inner, c, r.dates@[c], self.today,
                day_events(*self.week_events, r.dates@[c]), self.config.first_day_of_week),
            r.rows@.len() == week_rows_shown(inner),
            forall|i: int| 0 <= i < r.rows@.len() ==> {
                &&& (#[trigger] r.rows@[i]).label.x == inner.x
                &&& r.rows@[i].label.y == inner.y + 1 + i
                &&& r.rows@[i].label.text@ == hour_label(6 + i)
                &&& r.rows@[i].label.tone == Tone::Muted
                &&& r.rows@[i].cells@.len() == 7
            },
            forall|i: int, c: int| 0 <= i < r.rows@.len() && 0 <= c < 7 ==> cell_ok(#[trigger] r.rows@[i].cells@[c], inner, c, i,
                r.dates@[c], day_events(*self.week_events, r.dates@[c]),
                r.dates@[c] == self.selected_date && 6 + i == self.selected_hour && self.focused),
            week_offset(self.config.first_day_of_week, self.week_start) == 0 ==> forall|c: int| 0 <= c < r.headers@.len()
                ==> (#[trigger] r.headers@[c]).name@ == weekday_three_letters(r.dates@[c].spec_weekday_from_monday()),
    {
        let mut headers: Vec<WeekHeader> = Vec::new();
        let mut rows: Vec<WeekRow> = Vec::new();
        let mut dates: Vec<Date> = Vec::new();
        let mut k: i64 = 0;
        while k < 7
            invariant
                0 <= k <= 7,
                self.week_start.valid(),
                self.week_start.days() + 6 <= max_day_number(),
                dates@.len() == k,
                forall|j: int| 0 <= j < k ==> (#[trigger] dates@[j]).valid() && dates@[j].days() == self.week_start.days() + j,
            decreases 7 - k,
        {
            dates.push(self.week_start.add_days(k).unwrap());
            k = k + 1;
        }
        if inner.height < 3 || inner.width < 32 {
            return WeekLayout { dates, headers, rows };
        }
        let label_width: u16 = LABEL_WIDTH;
        let col_width = (inner.width - label_width) / 7;
        if col_width == 0 {
            return WeekLayout { dates, headers, rows };
        }
        let max_len = (col_width - 1) as usize;
        // Header row: day names and all-day events.
        let mut col: usize = 0;
        while col < 7
            invariant
                col <= 7,
                inner.fits(),
                week_fits(inner),
                col_width == week_col_width(inner),
                label_width == LABEL_WIDTH,
                col_width > 0,
                max_len == col_width - 1,
                self.week_events.wf(),
                dates@.len() == 7,
                forall|j: int| 0 <= j < 7 ==> (#[trigger] dates@[j]).valid()
                    && dates@[j].days() == self.week_start.days() + j,
                headers@.len() == col,
                forall|c: int| 0 <= c < col ==> header_ok(#[trigger] headers@[c], inner, c, dates@[c], self.today,
                    day_events(*self.week_events, dates@[c]), self.config.first_day_of_week),
            decreases 7 - col,
        {
            let date = dates[col];
            assert(col * col_width <= 6 * col_width) by (nonlinear_arith)
                requires
                    col <= 6,
            ;
            assert(7 * col_width <= inner.width - 6);
            let col_x = inner.x + label_width + (col as u16) * col_width;
            let name_tone = if date == self.today { Tone::Today } else { Tone::White };
            let (title, overflow) = match self.week_events.get(date) {
                Some(evs) => {
                    let (count, first) = count_picked(evs, Pick::AllDay);
                    if count > 0 {
                        let t = truncate_str(evs[first].title.as_str(), max_len);
                        let ov = more_marker(col_x, inner.y, col_width, &t, count, Tone::Event);
                        (if max_len > 0 { Some(t) } else { None }, ov)
                    } else {
                        (None, None)
                    }
                },
                None => (None, None),
            };
            headers.push(WeekHeader {
                x: col_x,
                y: inner.y,
                name: day_name_text(self.config.first_day_of_week, col).to_owned(),
                name_tone,
                title,
                overflow,
            });
            col = col + 1;
        }
        // Hour rows, 06:00 through 21:00.
        let mut i: u16 = 0;
        while i < 16
            invariant
                i <= 16,
                inner.fits(),
                week_fits(inner),
                col_width == week_col_width(inner),
                label_width == LABEL_WIDTH,
                col_width > 0,
                max_len == col_width - 1,
                self.week_events.wf(),
                dates@.len() == 7,
                forall|j: int| 0 <= j < 7 ==> (#[trigger] dates@[j]).valid()
                    && dates@[j].days() == self.week_start.days() + j,
                headers@.len() == 7,
                forall|c: int| 0 <= c < 7 ==> header_ok(#[trigger] headers@[c], inner, c, dates@[c], self.today,
                    day_events(*self.week_events, dates@[c]), self.config.first_day_of_week),
                rows@.len() == i,
                i <= week_rows_shown(inner),
                forall|r: int| 0 <= r < rows@.len() ==> {
                    &&& (#[trigger] rows@[r]).label.x == inner.x
                    &&& rows@[r].label.y == inner.y + 1 + r
                    &&& rows@[r].label.text@ == hour_label(6 + r)
                    &&& rows@[r].label.tone == Tone::Muted
                    &&& rows@[r].cells@.len() == 7
                },
                forall|r: int, c: int| 0 <= r < rows@.len() && 0 <= c < 7 ==> cell_ok(#[trigger] rows@[r].cells@[c], inner, c, r, dates@[c],
                    day_events(*self.week_events, dates@[c]), dates@[c] == self.selected_date && 6 + r == self.selected_hour && self.focused),
            ensures
                rows@.len() == week_rows_shown(inner),
            decreases 16 - i,
        {
            if 1 + i >= inner.height {
                break;
            }
            let row_y = inner.y + 1 + i;
            let hour: u32 = 6 + i as u32;
            let label = Placed { x: inner.x, y: row_y, text: hour_label_text(hour), tone: Tone::Muted };
            let mut cells: Vec<WeekCell> = Vec::new();
            let mut col: usize = 0;
            while col < 7
                invariant
                    col <= 7,
                    inner.fits(),
                    week_fits(inner),
                    col_width == week_col_width(inner),
                    label_width == LABEL_WIDTH,
                    col_width > 0,
                    max_len == col_width - 1,
                    self.week_events.wf(),
                    1 + i < inner.height,
                    i < 16,
                    row_y == inner.y + 1 + i,
                    hour == 6 + i,
                    dates@.len() == 7,
                    forall|j: int| 0 <= j < 7 ==> (#[trigger] dates@[j]).valid(),
                    cells@.len() == col,
                    forall|c: int| 0 <= c < col ==> cell_ok(#[trigger] cells@[c], inner, c, i as int, dates@[c],
                        day_events(*self.week_events, dates@[c]), dates@[c] == self.selected_date && 6 + i == self.selected_hour && self.focused),
                decreases 7 - col,
            {
                let date = dates[col];
                assert(col * col_width <= 6 * col_width) by (nonlinear_arith)
                    requires
                        col <= 6,
                ;
                assert(7 * col_width <= inner.width - 6);
                let col_x = inner.x + label_width + (col as u16) * col_width;
                let highlighted = date == self.selected_date && hour == self.selected_hour as u32 && self.focused;
                let tone = if highlighted { Tone::TimedReversed } else { Tone::Timed };
                let empty: Vec<Event> = Vec::new();
                let evs = match self.week_events.get(date) {
                    Some(v) => v,
                    None => &empty,
                };
                assert(evs@ == day_events(*self.week_events, date));
                let (starts, first) = count_picked(evs, Pick::StartsIn(hour));
                let cell = if starts > 0 {
                    let t = truncate_str(evs[first].title.as_str(), max_len);
                    let ov = more_marker(col_x, row_y, col_width, &t, starts, tone);
                    WeekCell { x: col_x, y: row_y, text: Some(t), tone, overflow: ov }
                } else {
                    let (continues, _) = count_picked(evs, Pick::Continues(hour));
                    if continues > 0 {
                        WeekCell { x: col_x, y: row_y, text: Some(bar_text()), tone, overflow: None }
                    } else if highlighted {
                        WeekCell { x: col_x, y: row_y, text: Some(space_text()), tone: Tone::Reversed, overflow: None }
                    } else {
                        WeekCell { x: col_x, y: row_y, text: None, tone, overflow: None }
                    }
                };
                cells.push(cell);
                col = col + 1;
            }
            rows.push(WeekRow { label, cells });
            i = i + 1;
        }
        proof {
            let fd = self.config.first_day_of_week;
            if week_offset(fd, self.week_start) == 0 {
                assert forall|c: int| 0 <= c < headers@.len() implies (#[trigger] headers@[c]).name@ == weekday_three_letters(
                    dates@[c].spec_weekday_from_monday(),
                ) by {
                    lemma_aligned_week_column(fd, self.week_start, dates@[c], c);
                    law_week_header_names_its_day(headers@[c], inner, c, dates@[c], self.today, day_events(
                        *self.week_events,
                        dates@[c],
                    ), fd);
                }
            }
        }
        WeekLayout { dates, headers, rows }
    }
}

/// The `+n` marker after `title` in a column at `x` that is `cw` wide, when
/// there are `count` events and it fits.
fn more_marker(x: u16, y: u16, cw: u16, title: &String, count: usize, tone: Tone) -> (r: Option<Placed>)
    requires
        x + cw <= u16::MAX,
        count >= 1,
    ensures
        overflow_ok(r, x as int, y as int, cw as int, title@, count as int, tone),
{
    if count > 1 && cw >= 5 {
        let len = title.as_str().unicode_len();
        if len < (cw - 1) as usize {
            let mut text = "+".to_owned();
            proof {
                reveal_strlit("+");
            }
            let n = decimal_text(count - 1);
            text.append(n.as_str());
            assert(text@ =~= more_text((count - 1) as nat));
            return Some(Placed { x: x + (len as u16) + 1, y, text, tone });
        }
    }
    None
}

fn bar_text() -> (r: String)
    ensures
        r@ == seq!['│'],
{
    let s = "│".to_owned();
    proof {
        reveal_strlit("│");
    }
    s
}

fn space_text() -> (r: String)
    ensures
        r@ == seq![' '],
{
    let s = " ".to_owned();
    proof {
        reveal_strlit(" ");
    }
    s
}

/// The label of an hour row below 24: `HH:00 `.
fn hour_label_text(h: u32) -> (r: String)
    requires
        h < 24,
    ensures
        r@ == hour_label(h as int),
{
    let mut s = String::new();
    if h < 10 {
        crate::text::string_push(&mut s, '0');
    }
    let n = decimal_text(h as usize);
    s.append(n.as_str());
    crate::text::string_push(&mut s, ':');
    crate::text::string_push(&mut s, '0');
    crate::text::string_push(&mut s, '0');
    crate::text::string_push(&mut s, ' ');
    proof {
        if h < 10 {
            assert(decimal(h as nat) == seq![crate::date::digit_char(h as int)]);
            assert(zero_pad(decimal(h as nat), 2) == zero_pad(seq!['0'] + decimal(h as nat), 2));
            assert(zero_pad(seq!['0'] + decimal(h as nat), 2) =~= seq!['0'] + decimal(h as nat));
        } else {
            assert(decimal((h / 10) as nat) == seq![crate::date::digit_char((h / 10) as int)]);
            assert(decimal(h as nat).len() == 2);
        }
        assert(s@ =~= hour_label(h as int));
    }
    s
}

/// The three-letter name of a weekday (Monday is 0): the first three
/// letters of its English name.
pub open spec fn weekday_three_letters(w: int) -> Seq<char> {
    crate::date::weekday_full(w).take(3)
}

/// The day names are the three-letter names of the weekdays, Monday first.
proof fn lemma_day_names_are_weekdays(i: int)
    requires
        0 <= i < 7,
    ensures
        day_name(i) == weekday_three_letters(i),
{
    reveal_strlit("Mon");
    reveal_strlit("Tue");
    reveal_strlit("Wed");
    reveal_strlit("Thu");
    reveal_strlit("Fri");
    reveal_strlit("Sat");
    reveal_strlit("Sun");
    reveal_strlit("Monday");
    reveal_strlit("Tuesday");
    reveal_strlit("Wednesday");
    reveal_strlit("Thursday");
    reveal_strlit("Friday");
    reveal_strlit("Saturday");
    reveal_strlit("Sunday");
    assert("Monday"@.take(3) =~= "Mon"@);
    assert("Tuesday"@.take(3) =~= "Tue"@);
    assert("Wednesday"@.take(3) =~= "Wed"@);
    assert("Thursday"@.take(3) =~= "Thu"@);
    assert("Friday"@.take(3) =~= "Fri"@);
    assert("Saturday"@.take(3) =~= "Sat"@);
    assert("Sunday"@.take(3) =~= "Sun"@);
}

/// In a week that starts on the configured first day, the day `c` days
/// after its start is `c` days into its own week.
proof fn lemma_aligned_week_column(first_day: FirstDayOfWeek, start: Date, d: Date, c: int)
    requires
        0 <= c < 7,
        week_offset(first_day, start) == 0,
        d.days() == start.days() + c,
    ensures
        week_offset(first_day, d) == c,
{
    match first_day {
        FirstDayOfWeek::Sunday => {
            vstd::arithmetic::div_mod::lemma_fundamental_div_mod(start.days(), 7);
            vstd::arithmetic::div_mod::lemma_mod_multiples_vanish(start.days() / 7, c, 7);
            vstd::arithmetic::div_mod::lemma_small_mod(c as nat, 7);
        },
        FirstDayOfWeek::Monday => {
            vstd::arithmetic::div_mod::lemma_fundamental_div_mod(start.days() - 1, 7);
            vstd::arithmetic::div_mod::lemma_mod_multiples_vanish((start.days() - 1) / 7, c, 7);
            vstd::arithmetic::div_mod::lemma_small_mod(c as nat, 7);
        },
    }
}

/// In a week that starts on the configured first day, the header over
/// column `c` names the weekday of the date in that column: the first three
/// letters of its English name (Thursday 2026-06-18 is headed "Thu").
pub proof fn law_week_header_names_its_day(
    h: WeekHeader,
    inner: Rect,
    c: int,
    date: Date,
    today: Date,
    evs: Seq<Event>,
    first_day: FirstDayOfWeek,
)
    requires
        0 <= c < 7,
        header_ok(h, inner, c, date, today, evs, first_day),
        week_offset(first_day, date) == c,
    ensures
        h.name@ == weekday_three_letters(date.spec_weekday_from_monday()),
{
    let k = date.days();
    match first_day {
        FirstDayOfWeek::Sunday => {
            crate::date::lemma_weekday_shift(k);
            lemma_day_names_are_weekdays((c + 6) % 7);
        },
        FirstDayOfWeek::Monday => {
            lemma_day_names_are_weekdays(c);
        },
    }
}

/// A click where the weekly view draws column `c` falls on that column: on
/// the header row as the day alone, on hour row `i` as that day and hour.
pub proof fn law_click_hits_drawn_cell(rect: Rect, c: int, i: int)
    requires
        week_fits(inside_border(rect)),
        week_col_width(inside_border(rect)) > 0,
        0 <= c < 7,
        0 <= i < week_rows_shown(inside_border(rect)),
    ensures
        ({
            let inner = inside_border(rect);
            &&& weekly_cell_at(week_col_x(inner, c), inner.y as int, rect) == Some((c, None::<int>))
            &&& weekly_cell_at(week_col_x(inner, c), inner.y + 1 + i, rect) == Some((c, Some(6 + i)))
        }),
{
    let inner = inside_border(rect);
    let cw = week_col_width(inner);
    vstd::arithmetic::div_mod::lemma_div_by_multiple(c, cw);
    assert(c * cw <= 6 * cw) by (nonlinear_arith)
        requires
            c <= 6,
            cw >= 0,
    ;
    assert(7 * cw <= inner.width - LABEL_WIDTH);
    assert((c * cw) / cw == c);
    assert(i % 256 == i) by {
        vstd::arithmetic::div_mod::lemma_small_mod(i as nat, 256);
    }
}

} // verus!
