//! Calendar grid logic for the monthly and weekly views.

use vstd::prelude::*;
use crate::config::FirstDayOfWeek;
use crate::date::{
    Date, MAX_YEAR, MIN_YEAR, days_before_month, days_before_year, day_number, is_leap_year,
    is_valid_ymd, lemma_days_before_year_monotonic, lemma_days_before_year_step, max_day_number,
    min_day_number, month_length,
};
use crate::daymap::DayMap;

verus! {

/// Consecutive months are separated by the length of the first.
pub proof fn lemma_next_month_start(y: int, m: int)
    requires
        1 <= m <= 12,
    ensures
        m < 12 ==> day_number(y, m + 1, 1) == day_number(y, m, 1) + month_length(y, m),
        m == 12 ==> day_number(y + 1, 1, 1) == day_number(y, m, 1) + month_length(y, m),
{
    lemma_days_before_year_step(y);
}

/// Returns the number of days in a given month of a given year.
pub fn days_in_month(year: i32, month: u32) -> (r: usize)
    requires
        is_valid_ymd(year as int, month as int, 1),
        month < 12 || year < MAX_YEAR,
    ensures
        r == month_length(year as int, month as int),
        28 <= r <= 31,
{
    let next = if month == 12 {
        Date::from_ymd_opt(year + 1, 1, 1)
    } else {
        Date::from_ymd_opt(year, month + 1, 1)
    };
    let first = Date::from_ymd_opt(year, month, 1).unwrap();
    let next = next.unwrap();
    proof {
        lemma_next_month_start(year as int, month as int);
        crate::date::lemma_day_number_bounds(year as int, month as int, 1);
        crate::date::lemma_day_number_bounds(next.year as int, next.month as int, 1);
    }
    (next.num_days_from_ce() - first.num_days_from_ce()) as usize
}

/// Days between the start of the week (as configured) and `d`.
pub open spec fn week_offset(first_day: FirstDayOfWeek, d: Date) -> int {
    match first_day {
        FirstDayOfWeek::Sunday => d.spec_weekday_from_sunday(),
        FirstDayOfWeek::Monday => d.spec_weekday_from_monday(),
    }
}

/// Weekday header labels in display order.
pub open spec fn header_labels(first_day: FirstDayOfWeek) -> Seq<Seq<char>> {
    match first_day {
        FirstDayOfWeek::Sunday => seq!["Su"@, "Mo"@, "Tu"@, "We"@, "Th"@, "Fr"@, "Sa"@],
        FirstDayOfWeek::Monday => seq!["Mo"@, "Tu"@, "We"@, "Th"@, "Fr"@, "Sa"@, "Su"@],
    }
}

/// The two-letter name of a weekday (Monday is 0): the first two letters of
/// its English name.
pub open spec fn weekday_two_letters(w: int) -> Seq<char> {
    crate::date::weekday_full(w).take(2)
}

/// The header labels are the two-letter names of the days of a week that
/// starts on `first_day`, in order.
proof fn lemma_header_labels_are_weekdays(first_day: FirstDayOfWeek, c: int)
    requires
        0 <= c < 7,
    ensures
        header_labels(first_day)[c] == weekday_two_letters(match first_day {
            FirstDayOfWeek::Sunday => (c + 6) % 7,
            FirstDayOfWeek::Monday => c,
        }),
{
    reveal_strlit("Su");
    reveal_strlit("Mo");
    reveal_strlit("Tu");
    reveal_strlit("We");
    reveal_strlit("Th");
    reveal_strlit("Fr");
    reveal_strlit("Sa");
    reveal_strlit("Sunday");
    reveal_strlit("Monday");
    reveal_strlit("Tuesday");
    reveal_strlit("Wednesday");
    reveal_strlit("Thursday");
    reveal_strlit("Friday");
    reveal_strlit("Saturday");
    assert("Sunday"@.take(2) =~= "Su"@);
    assert("Monday"@.take(2) =~= "Mo"@);
    assert("Tuesday"@.take(2) =~= "Tu"@);
    assert("Wednesday"@.take(2) =~= "We"@);
    assert("Thursday"@.take(2) =~= "Th"@);
    assert("Friday"@.take(2) =~= "Fr"@);
    assert("Saturday"@.take(2) =~= "Sa"@);
}

/// In a monthly grid the label over a column names the weekday of every day
/// in that column: the cell at flat index `i` (column `i % 7`) holds the day
/// `first - offset + i`, whose weekday's two-letter name is that label.
pub proof fn law_header_names_the_column_weekday(g: CalendarGrid, i: int, d: Date)
    requires
        0 <= i,
        d.days() == g.first().days() - g.offset() + i,
    ensures
        header_labels(g.first_day)[i % 7] == weekday_two_letters(d.spec_weekday_from_monday()),
{
    let f = g.first().days();
    vstd::arithmetic::div_mod::lemma_fundamental_div_mod(f, 7);
    vstd::arithmetic::div_mod::lemma_fundamental_div_mod(f - 1, 7);
    lemma_header_labels_are_weekdays(g.first_day, i % 7);
    match g.first_day {
        FirstDayOfWeek::Sunday => {
            assert(d.days() - 1 == 7 * (f / 7) + (i - 1));
            vstd::arithmetic::div_mod::lemma_mod_multiples_vanish(f / 7, i - 1, 7);
            crate::date::lemma_weekday_shift(i);
        },
        FirstDayOfWeek::Monday => {
            assert(d.days() - 1 == 7 * ((f - 1) / 7) + i);
            vstd::arithmetic::div_mod::lemma_mod_multiples_vanish((f - 1) / 7, i, 7);
        },
    }
}

/// Represents a single cell in the calendar grid.
#[derive(Debug, Clone)]
pub struct DayCell {
    pub date: Date,
    pub is_current_month: bool,
    pub is_today: bool,
    pub is_holiday: bool,
    pub holiday_name: Option<String>,
    pub event_count: usize,
}

/// Calendar grid logic for a monthly view.
pub struct CalendarGrid {
    pub year: i32,
    pub month: u32,
    pub first_day: FirstDayOfWeek,
}

/// A month whose surrounding weeks are all representable: any month but the
/// first and the last of the representable range.
pub proof fn lemma_month_in_range(y: int, m: int)
    requires
        MIN_YEAR <= y <= MAX_YEAR,
        1 <= m <= 12,
        MIN_YEAR < y || m > 1,
        y < MAX_YEAR || m < 12,
    ensures
        min_day_number() + 7 <= day_number(y, m, 1),
        day_number(y, m, month_length(y, m)) + 7 <= max_day_number(),
{
    if y > MIN_YEAR {
        lemma_days_before_year_monotonic(MIN_YEAR as int + 1, y);
        lemma_days_before_year_step(MIN_YEAR as int);
    }
    if y < MAX_YEAR {
        lemma_days_before_year_monotonic(y + 1, MAX_YEAR as int);
        lemma_days_before_year_step(y);
    }
}

impl CalendarGrid {
    pub fn new(year: i32, month: u32, first_day: FirstDayOfWeek) -> (r: Self)
        ensures
            r.year == year,
            r.month == month,
            r.first_day == first_day,
    {
        Self { year, month, first_day }
    }

    /// A grid for a month whose neighbouring weeks are all representable:
    /// any month but January of the first representable year and December of
    /// the last.
    pub open spec fn valid(self) -> bool {
        &&& MIN_YEAR <= self.year <= MAX_YEAR
        &&& 1 <= self.month <= 12
        &&& MIN_YEAR < self.year || self.month > 1
        &&& self.year < MAX_YEAR || self.month < 12
    }

    /// The first day of the month.
    pub open spec fn first(self) -> Date {
        Date { year: self.year, month: self.month, day: 1 }
    }

    /// Number of days of the month.
    pub open spec fn num_days(self) -> int {
        month_length(self.year as int, self.month as int)
    }

    /// Cells from the previous month shown before the first day.
    pub open spec fn offset(self) -> int {
        week_offset(self.first_day, self.first())
    }

    /// Total number of cells: whole weeks covering the month.
    pub open spec fn cell_count(self) -> int {
        let t = self.offset() + self.num_days();
        t + (7 - t % 7) % 7
    }

    /// What the cell at flat index `i` holds.
    pub open spec fn cell_ok(
        self,
        cell: DayCell,
        i: int,
        today: Date,
        holidays: DayMap<String>,
        event_counts: DayMap<usize>,
    ) -> bool {
        let in_month = self.offset() <= i < self.offset() + self.num_days();
        &&& cell.date.valid()
        &&& cell.date.days() == self.first().days() - self.offset() + i
        &&& cell.is_current_month == in_month
        &&& in_month ==> {
            &&& cell.date == Date { year: self.year, month: self.month, day: (i - self.offset() + 1) as u32 }
            &&& cell.is_today == (cell.date == today)
            &&& cell.holiday_name == holidays.spec_get(cell.date)
            &&& cell.is_holiday == (holidays.spec_get(cell.date) is Some)
            &&& cell.event_count == (match event_counts.spec_get(cell.date) {
                Some(c) => c,
                None => 0,
            })
        }
        &&& !in_month ==> !cell.is_today && !cell.is_holiday && cell.holiday_name is None
            && cell.event_count == 0
    }

    /// Get the weekday offset for the first day of the month.
    fn start_offset(&self) -> (r: usize)
        requires
            self.valid(),
        ensures
            r == self.offset(),
            r < 7,
    {
        let first = Date { year: self.year, month: self.month, day: 1 };
        let weekday_num = match self.first_day {
            FirstDayOfWeek::Sunday => first.weekday_from_sunday(),
            FirstDayOfWeek::Monday => first.weekday_from_monday(),
        };
        weekday_num as usize
    }

    /// Get weekday headers in order.
    pub fn weekday_headers(&self) -> (r: Vec<&'static str>)
        ensures
            r@.len() == 7,
            forall|i: int| 0 <= i < 7 ==> (#[trigger] r@[i])@ == header_labels(self.first_day)[i],
    {
        match self.first_day {
            FirstDayOfWeek::Sunday => vec!["Su", "Mo", "Tu", "We", "Th", "Fr", "Sa"],
            FirstDayOfWeek::Monday => vec!["Mo", "Tu", "We", "Th", "Fr", "Sa", "Su"],
        }
    }

    /// Generate all day cells for the monthly grid (including padding days),
    /// as weeks of seven.
    pub fn generate_cells(
        &self,
        today: Date,
        holidays: &DayMap<String>,
        event_counts: &DayMap<usize>,
    ) -> (r: Vec<Vec<DayCell>>)
        requires
            self.valid(),
            holidays.wf(),
            event_counts.wf(),
        ensures
            7 * r@.len() == self.cell_count(),
            4 <= r@.len() <= 6,
            forall|w: int| 0 <= w < r@.len() ==> (#[trigger] r@[w])@.len() == 7,
            forall|w: int, c: int|
                0 <= w < r@.len() && 0 <= c < 7 ==> self.cell_ok(
                    #[trigger] r@[w]@[c],
                    7 * w + c,
                    today,
                    *holidays,
                    *event_counts,
                ),
    {
        let num_days = days_in_month(self.year, self.month);
        let offset = self.start_offset();
        let first = Date { year: self.year, month: self.month, day: 1 };
        proof {
            lemma_month_in_range(self.year as int, self.month as int);
        }
        let mut weeks: Vec<Vec<DayCell>> = Vec::new();
        let mut week: Vec<DayCell> = Vec::new();

        // Previous month's trailing days
        let mut i: usize = 0;
        while i < offset
            invariant
                self.valid(),
                holidays.wf(),
                event_counts.wf(),
                offset == self.offset(),
                offset < 7,
                num_days == self.num_days(),
                first == self.first(),
                min_day_number() + 7 <= first.days(),
                i <= offset,
                weeks@.len() == 0,
                week@.len() == i,
                forall|c: int| 0 <= c < week@.len() ==> self.cell_ok(#[trigger] week@[c], c, today, *holidays, *event_counts),
            decreases offset - i,
        {
            let date = first.add_days(i as i64 - offset as i64).unwrap();
            week.push(DayCell {
                date,
                is_current_month: false,
                is_today: false,
                is_holiday: false,
                holiday_name: None,
                event_count: 0,
            });
            i = i + 1;
        }

        // Current month days
        let mut day: usize = 1;
        while day <= num_days
            invariant
                self.valid(),
                holidays.wf(),
                event_counts.wf(),
                offset == self.offset(),
                offset < 7,
                num_days == self.num_days(),
                28 <= num_days <= 31,
                first == self.first(),
                1 <= day <= num_days + 1,
                7 * weeks@.len() + week@.len() == offset + day - 1,
                week@.len() < 7,
                forall|w: int| 0 <= w < weeks@.len() ==> (#[trigger] weeks@[w])@.len() == 7,
                forall|w: int, c: int|
                    0 <= w < weeks@.len() && 0 <= c < 7 ==> self.cell_ok(#[trigger] weeks@[w]@[c], 7 * w + c, today, *holidays, *event_counts),
                forall|c: int| 0 <= c < week@.len() ==> self.cell_ok(#[trigger] week@[c], 7 * weeks@.len() + c, today, *holidays, *event_counts),
            decreases num_days + 1 - day,
        {
            let date = Date { year: self.year, month: self.month, day: day as u32 };
            let is_today = date == today;
            let holiday_name = match holidays.get(date) {
                Some(name) => Some(name.clone()),
                None => None,
            };
            let is_holiday = holiday_name.is_some();
            let event_count = match event_counts.get(date) {
                Some(c) => *c,
                None => 0,
            };
            let cell = DayCell {
                date,
                is_current_month: true,
                is_today,
                is_holiday,
                holiday_name,
                event_count,
            };
            proof {
                assert(date.valid());
            }
            push_cell(&mut weeks, &mut week, cell);
            day = day + 1;
        }

        // Next month's leading days, to fill the last week
        let last = Date { year: self.year, month: self.month, day: num_days as u32 };
        let mut k: usize = 1;
        proof {
            lemma_month_in_range(self.year as int, self.month as int);
            assert(last.days() == first.days() + num_days - 1);
        }
        while week.len() > 0
            invariant
                self.valid(),
                offset == self.offset(),
                offset < 7,
                num_days == self.num_days(),
                first == self.first(),
                last.days() == first.days() + num_days - 1,
                last.valid(),
                28 <= num_days <= 31,
                last.days() + 7 <= max_day_number(),
                1 <= k <= 7,
                7 * weeks@.len() + week@.len() == offset + num_days + k - 1,
                week@.len() == 0 || week@.len() >= k,
                week@.len() < 7,
                forall|w: int| 0 <= w < weeks@.len() ==> (#[trigger] weeks@[w])@.len() == 7,
                forall|w: int, c: int|
                    0 <= w < weeks@.len() && 0 <= c < 7 ==> self.cell_ok(#[trigger] weeks@[w]@[c], 7 * w + c, today, *holidays, *event_counts),
                forall|c: int| 0 <= c < week@.len() ==> self.cell_ok(#[trigger] week@[c], 7 * weeks@.len() + c, today, *holidays, *event_counts),
            decreases 8 - k,
        {
            let date = last.add_days(k as i64).unwrap();
            push_cell(&mut weeks, &mut week, DayCell {
                date,
                is_current_month: false,
                is_today: false,
                is_holiday: false,
                holiday_name: None,
                event_count: 0,
            });
            k = k + 1;
        }
        proof {
            let t = offset + num_days;
            assert(7 * weeks@.len() == t + k - 1);
            assert((k - 1) == (7 - t % 7) % 7);
        }
        weeks
    }
}

/// Appends a cell to the current week, closing the week when it is full.
fn push_cell(weeks: &mut Vec<Vec<DayCell>>, week: &mut Vec<DayCell>, cell: DayCell)
    requires
        old(week)@.len() < 7,
    ensures
        old(week)@.len() == 6 ==> final(weeks)@ == old(weeks)@.push(final(weeks)@.last())
            && final(weeks)@.last()@ == old(week)@.push(cell) && final(week)@.len() == 0,
        old(week)@.len() < 6 ==> final(weeks)@ == old(weeks)@ && final(week)@ == old(week)@.push(cell),
{
    week.push(cell);
    if week.len() == 7 {
        let mut full: Vec<DayCell> = Vec::new();
        std::mem::swap(week, &mut full);
        weeks.push(full);
    }
}

/// Returns the start date of the week containing `date`,
/// respecting `first_day` configuration (Sunday or Monday).
pub fn week_start_date(date: Date, first_day: FirstDayOfWeek) -> (r: Date)
    requires
        date.valid(),
        min_day_number() <= date.days() - week_offset(first_day, date),
    ensures
        r.valid(),
        r.days() == date.days() - week_offset(first_day, date),
{
    let weekday_num = match first_day {
        FirstDayOfWeek::Sunday => date.weekday_from_sunday(),
        FirstDayOfWeek::Monday => date.weekday_from_monday(),
    };
    date.add_days(-(weekday_num as i64)).unwrap()
}

/// The week start lies on the configured first day, at most six days before
/// the date, so the date falls within the week that it starts.
pub proof fn law_week_start_starts_the_week(date: Date, first_day: FirstDayOfWeek, start: Date)
    requires
        start.days() == date.days() - week_offset(first_day, date),
    ensures
        week_offset(first_day, start) == 0,
        start.days() <= date.days() < start.days() + 7,
{
}

} // verus!
