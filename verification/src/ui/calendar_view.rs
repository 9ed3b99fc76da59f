//! The monthly calendar panel: what it draws and hit testing.

use vstd::prelude::*;
use crate::app::App;
use crate::calendar::grid::{CalendarGrid, DayCell, header_labels};
use crate::config::Config;
use crate::date::Date;
use crate::daymap::DayMap;
use crate::ui::layout::{Rect, inside_border, min_int};
use crate::ui::paint::{Placed, Tone, two_wide, two_wide_text};

verus! {

/// Height of each calendar cell in rows (day number and a blank line).
pub const CELL_HEIGHT: u16 = 2;

/// The (week row, column) under `(x, y)` in a monthly view drawn in `rect`,
/// before checking that the month has that many weeks.
pub open spec fn monthly_cell_at(x: int, y: int, rect: Rect) -> Option<(int, int)> {
    let inner = inside_border(rect);
    if inner.height < 2 || inner.width < 20 {
        None
    } else if x < inner.x || x >= inner.x + inner.width || y < inner.y || y >= inner.y + inner.height {
        None
    } else if y == inner.y || y < inner.y + 2 {
        None
    } else {
        let col = (x - inner.x) / ((inner.width / 7) as int);
        if col >= 7 {
            None
        } else {
            Some(((y - (inner.y + 2)) / (CELL_HEIGHT as int), col))
        }
    }
}

/// Hit-test a monthly calendar view: the date under `(x, y)`, if any.
pub fn hit_test_monthly(x: u16, y: u16, rect: Rect, app: &App) -> (r: Option<Date>)
    requires
        app.wf(),
    ensures
        ({
            let grid = CalendarGrid { year: app.view_year, month: app.view_month, first_day: app.config.first_day_of_week };
            &&& r is Some <==> (monthly_cell_at(x as int, y as int, rect) matches Some(rc) && 7 * rc.0 < grid.cell_count())
            &&& r matches Some(d) ==> d.valid() && d.days() == grid.first().days() - grid.offset() + 7 * monthly_cell_at(
                x as int,
                y as int,
                rect,
            )->Some_0.0 + monthly_cell_at(x as int, y as int, rect)->Some_0.1
        }),
{
    let grid = CalendarGrid::new(app.view_year, app.view_month, app.config.first_day_of_week);
    let inner = rect.bordered_inner();
    if inner.height < 2 || inner.width < 20 {
        return None;
    }
    if x < inner.x || x as u32 >= inner.x as u32 + inner.width as u32 || y < inner.y || y as u32
        >= inner.y as u32 + inner.height as u32 {
        return None;
    }
    // Header row is at inner.y
    if y == inner.y {
        return None;
    }
    let col_width = inner.width / 7;
    let col = ((x - inner.x) / col_width) as usize;
    if col >= 7 {
        return None;
    }
    // Week rows start at inner.y + 2 (header + blank row), each CELL_HEIGHT rows
    if (y as u32) < inner.y as u32 + 2 {
        return None;
    }
    let week_row = ((y - (inner.y + 2)) / CELL_HEIGHT) as usize;
    let counts: DayMap<usize> = DayMap::new();
    let weeks = grid.generate_cells(app.today, &app.holidays, &counts);
    if week_row >= weeks.len() {
        return None;
    }
    let date = weeks[week_row][col].date;
    proof {
        assert(grid.cell_ok(weeks@[week_row as int]@[col as int], 7 * week_row + col, app.today, app.holidays, counts));
    }
    Some(date)
}

/// A day as the monthly view draws it: its number, and a dot after the
/// number when it has events.
#[derive(Debug, Clone)]
pub struct MonthDay {
    pub x: u16,
    pub y: u16,
    pub label: String,
    pub tone: Tone,
    pub dot: bool,
}

/// The tone of a day's number: today, then the selected day, then days of
/// other months, then holidays.
pub open spec fn day_tone(cell: DayCell, selected: Date) -> Tone {
    if cell.is_today {
        Tone::Today
    } else if cell.date == selected {
        Tone::AccentBold
    } else if !cell.is_current_month {
        Tone::Muted
    } else if cell.is_holiday {
        Tone::Alert
    } else {
        Tone::White
    }
}

/// Whether the monthly view draws anything inside `inner`.
pub open spec fn month_fits(inner: Rect) -> bool {
    inner.height >= 2 && inner.width >= 20
}

/// How many of `weeks` weeks fit below the header, two rows each.
pub open spec fn month_rows_shown(inner: Rect, weeks: int) -> int {
    if month_fits(inner) { min_int(weeks, (inner.height - 1) / 2) } else { 0 }
}

/// The weekday headers of the monthly view drawn inside `inner`.
pub fn month_headers(grid: &CalendarGrid, inner: Rect) -> (r: Vec<Placed>)
    requires
        inner.fits(),
    ensures
        !month_fits(inner) ==> r@.len() == 0,
        month_fits(inner) ==> r@.len() == 7,
        forall|i: int| 0 <= i < r@.len() ==> {
            &&& (#[trigger] r@[i]).x == inner.x + i * (inner.width / 7)
            &&& r@[i].y == inner.y
            &&& r@[i].text@ == header_labels(grid.first_day)[i]
            &&& r@[i].tone == Tone::MutedBold
        },
{
    let mut out: Vec<Placed> = Vec::new();
    if inner.height < 2 || inner.width < 20 {
        return out;
    }
    let headers = grid.weekday_headers();
    let col_width = inner.width / 7;
    let mut i: u16 = 0;
    while i < 7
        invariant
            i <= 7,
            inner.fits(),
            month_fits(inner),
            col_width == inner.width / 7,
            headers@.len() == 7,
            forall|j: int| 0 <= j < 7 ==> (#[trigger] headers@[j])@ == header_labels(grid.first_day)[j],
            out@.len() == i,
            forall|j: int| 0 <= j < i ==> {
                &&& (#[trigger] out@[j]).x == inner.x + j * (inner.width / 7)
                &&& out@[j].y == inner.y
                &&& out@[j].text@ == header_labels(grid.first_day)[j]
                &&& out@[j].tone == Tone::MutedBold
            },
        decreases 7 - i,
    {
        assert(i * col_width <= 6 * col_width) by (nonlinear_arith)
            requires
                i <= 6,
        ;
        let x = inner.x + i * col_width;
        out.push(Placed { x, y: inner.y, text: headers[i as usize].to_owned(), tone: Tone::MutedBold });
        i = i + 1;
    }
    out
}

/// The days of `weeks` as the monthly view draws them inside `inner`, week by
/// week: two rows per week below the header, as many weeks as fit.
pub fn month_days(weeks: &Vec<Vec<DayCell>>, inner: Rect, selected: Date) -> (r: Vec<Vec<MonthDay>>)
    requires
        inner.fits(),
        forall|w: int| 0 <= w < weeks@.len() ==> (#[trigger] weeks@[w])@.len() == 7,
        forall|w: int, c: int| 0 <= w < weeks@.len() && 0 <= c < 7 ==> (#[trigger] weeks@[w]@[c]).date.valid(),
    ensures
        r@.len() == month_rows_shown(inner, weeks@.len() as int),
        forall|w: int| 0 <= w < r@.len() ==> (#[trigger] r@[w])@.len() == 7,
        forall|w: int, c: int| 0 <= w < r@.len() && 0 <= c < 7 ==> {
            let cell = weeks@[w]@[c];
            let x = inner.x + c * (inner.width / 7);
            &&& (#[trigger] r@[w]@[c]).x == x
            &&& r@[w]@[c].y == inner.y + 2 + 2 * w
            &&& r@[w]@[c].label@ == two_wide(cell.date.day as nat)
            &&& r@[w]@[c].tone == day_tone(cell, selected)
            &&& r@[w]@[c].dot == (cell.event_count > 0 && x + 2 < inner.x + inner.width)
        },
{
    let mut out: Vec<Vec<MonthDay>> = Vec::new();
    if inner.height < 2 || inner.width < 20 {
        return out;
    }
    let col_width = inner.width / 7;
    let mut w: usize = 0;
    while w < weeks.len()
        invariant
            w <= weeks@.len(),
            inner.fits(),
            month_fits(inner),
            col_width == inner.width / 7,
            forall|v: int| 0 <= v < weeks@.len() ==> (#[trigger] weeks@[v])@.len() == 7,
            forall|v: int, c: int| 0 <= v < weeks@.len() && 0 <= c < 7 ==> (#[trigger] weeks@[v]@[c]).date.valid(),
            out@.len() == w,
            w <= month_rows_shown(inner, weeks@.len() as int),
            forall|v: int| 0 <= v < out@.len() ==> (#[trigger] out@[v])@.len() == 7,
            forall|v: int, c: int| 0 <= v < out@.len() && 0 <= c < 7 ==> {
                let cell = weeks@[v]@[c];
                let x = inner.x + c * (inner.width / 7);
                &&& (#[trigger] out@[v]@[c]).x == x
                &&& out@[v]@[c].y == inner.y + 2 + 2 * v
                &&& out@[v]@[c].label@ == two_wide(cell.date.day as nat)
                &&& out@[v]@[c].tone == day_tone(cell, selected)
                &&& out@[v]@[c].dot == (cell.event_count > 0 && x + 2 < inner.x + inner.width)
            },
        ensures
            out@.len() == month_rows_shown(inner, weeks@.len() as int),
        decreases weeks@.len() - w,
    {
        if 2 * w as u32 + 2 >= inner.height as u32 {
            break;
        }
        let week_y = inner.y + 2 + 2 * (w as u16);
        let mut row: Vec<MonthDay> = Vec::new();
        let mut c: usize = 0;
        while c < 7
            invariant
                c <= 7,
                w < weeks@.len(),
                inner.fits(),
                month_fits(inner),
                col_width == inner.width / 7,
                weeks@[w as int]@.len() == 7,
                forall|k: int| 0 <= k < 7 ==> (#[trigger] weeks@[w as int]@[k]).date.valid(),
                week_y == inner.y + 2 + 2 * w,
                row@.len() == c,
                forall|k: int| 0 <= k < c ==> {
                    let cell = weeks@[w as int]@[k];
                    let x = inner.x + k * (inner.width / 7);
                    &&& (#[trigger] row@[k]).x == x
                    &&& row@[k].y == inner.y + 2 + 2 * w
                    &&& row@[k].label@ == two_wide(cell.date.day as nat)
                    &&& row@[k].tone == day_tone(cell, selected)
                    &&& row@[k].dot == (cell.event_count > 0 && x + 2 < inner.x + inner.width)
                },
            decreases 7 - c,
        {
            let cell = &weeks[w][c];
            assert(c * col_width <= 6 * col_width) by (nonlinear_arith)
                requires
                    c <= 6,
            ;
            let x = inner.x + (c as u16) * col_width;
            let tone = if cell.is_today {
                Tone::Today
            } else if cell.date == selected {
                Tone::AccentBold
            } else if !cell.is_current_month {
                Tone::Muted
            } else if cell.is_holiday {
                Tone::Alert
            } else {
                Tone::White
            };
            proof {
                crate::date::lemma_day_number_bounds(cell.date.year as int, cell.date.month as int, cell.date.day as int);
            }
            let label = two_wide_text(cell.date.day);
            let dot = cell.event_count > 0 && (x as u32) + 2 < inner.x as u32 + inner.width as u32;
            row.push(MonthDay { x, y: week_y, label, tone, dot });
            c = c + 1;
        }
        out.push(row);
        w = w + 1;
    }
    out
}

/// What the monthly view draws inside its border: the month's cells week by
/// week, the weekday headers, and the days that fit.
#[derive(Debug, Clone)]
pub struct MonthLayout {
    pub cells: Vec<Vec<DayCell>>,
    pub headers: Vec<Placed>,
    pub days: Vec<Vec<MonthDay>>,
}

/// Calendar grid widget showing a monthly view.
pub struct CalendarView<'a> {
    pub year: i32,
    pub month: u32,
    pub today: Date,
    pub selected_date: Date,
    pub holidays: &'a DayMap<String>,
    pub event_counts: &'a DayMap<usize>,
    pub config: &'a Config,
    pub focused: bool,
}

impl<'a> CalendarView<'a> {
    pub fn new(
        year: i32,
        month: u32,
        today: Date,
        selected_date: Date,
        holidays: &'a DayMap<String>,
        event_counts: &'a DayMap<usize>,
        config: &'a Config,
    ) -> (r: Self)
        ensures
            r.year == year,
            r.month == month,
            r.today == today,
            r.selected_date == selected_date,
            r.holidays == holidays,
            r.event_counts == event_counts,
            r.config == config,
            !r.focused,
    {
        CalendarView { year, month, today, selected_date, holidays, event_counts, config, focused: false }
    }

    pub fn with_focused(self, focused: bool) -> (r: Self)
        ensures
            r.focused == focused,
            r.year == self.year,
            r.month == self.month,
            r.today == self.today,
            r.selected_date == self.selected_date,
            r.holidays == self.holidays,
            r.event_counts == self.event_counts,
            r.config == self.config,
    {
        CalendarView { focused, ..self }
    }

    /// The grid of the viewed month.
    pub open spec fn grid(self) -> CalendarGrid {
        CalendarGrid { year: self.year, month: self.month, first_day: self.config.first_day_of_week }
    }

    /// The panel's title.
    pub fn title(&self) -> (r: &'static str)
        ensures
            r@ == " [1]-Calendar "@,
    {
        " [1]-Calendar "
    }

    /// The tone of the border: the accent when focused.
    pub fn border_tone(&self) -> (r: Tone)
        ensures
            r == (if self.focused { Tone::Accent } else { Tone::Muted }),
    {
        if self.focused { Tone::Accent } else { Tone::Muted }
    }

    /// What the view draws inside its border `inner`.
    pub fn layout(&self, inner: Rect) -> (r: MonthLayout)
        requires
            inner.fits(),
            self.grid().valid(),
            self.holidays.wf(),
            self.event_counts.wf(),
        ensures
            7 * r.cells@.len() == self.grid().cell_count(),
            forall|w: int| 0 <= w < r.cells@.len() ==> (#[trigger] r.cells@[w])@.len() == 7,
            forall|w: int, c: int| 0 <= w < r.cells@.len() && 0 <= c < 7 ==> self.grid().cell_ok(
                #[trigger] r.cells@[w]@[c],
                7 * w + c,
                self.today,
                *self.holidays,
                *self.event_counts,
            ),
            !month_fits(inner) ==> r.headers@.len() == 0,
            month_fits(inner) ==> r.headers@.len() == 7,
            forall|i: int| 0 <= i < r.headers@.len() ==> {
                &&& (#[trigger] r.headers@[i]).x == inner.x + i * (inner.width / 7)
                &&& r.headers@[i].y == inner.y
                &&& r.headers@[i].text@ == header_labels(self.config.first_day_of_week)[i]
                &&& r.headers@[i].tone == Tone::MutedBold
            },
            r.days@.len() == month_rows_shown(inner, r.cells@.len() as int),
            forall|w: int| 0 <= w < r.days@.len() ==> (#[trigger] r.days@[w])@.len() == 7,
            forall|w: int, c: int| 0 <= w < r.days@.len() && 0 <= c < 7 ==> {
                let cell = r.cells@[w]@[c];
                let x = inner.x + c * (inner.width / 7);
                &&& (#[trigger] r.days@[w]@[c]).x == x
                &&& r.days@[w]@[c].y == inner.y + 2 + 2 * w
                &&& r.days@[w]@[c].label@ == two_wide(cell.date.day as nat)
                &&& r.days@[w]@[c].tone == day_tone(cell, self.selected_date)
                &&& r.days@[w]@[c].dot == (cell.event_count > 0 && x + 2 < inner.x + inner.width)
            },
    {
        let grid = CalendarGrid::new(self.year, self.month, self.config.first_day_of_week);
        let cells = grid.generate_cells(self.today, self.holidays, self.event_counts);
        proof {
            assert forall|w: int, c: int| 0 <= w < cells@.len() && 0 <= c < 7 implies (#[trigger] cells@[w]@[c]).date.valid() by {
                assert(grid.cell_ok(cells@[w]@[c], 7 * w + c, self.today, *self.holidays, *self.event_counts));
            }
        }
        let headers = month_headers(&grid, inner);
        let days = month_days(&cells, inner, self.selected_date);
        MonthLayout { cells, headers, days }
    }
}

/// A click where the monthly view draws the day of week row `w`, column
/// `c`, falls on that row and column.
pub proof fn law_click_hits_drawn_day(rect: Rect, w: int, c: int)
    requires
        month_fits(inside_border(rect)),
        0 <= c < 7,
        0 <= w,
        2 + 2 * w < inside_border(rect).height,
    ensures
        ({
            let inner = inside_border(rect);
            monthly_cell_at(inner.x + c * (inner.width / 7), inner.y + 2 + 2 * w, rect) == Some((w, c))
        }),
{
    let inner = inside_border(rect);
    let cw: int = (inner.width / 7) as int;
    assert(cw >= 2);
    vstd::arithmetic::div_mod::lemma_div_by_multiple(c, cw);
    vstd::arithmetic::div_mod::lemma_div_by_multiple(w, 2);
    assert(c * cw <= 6 * cw) by (nonlinear_arith)
        requires
            c <= 6,
            cw >= 0,
    ;
    assert(7 * cw <= inner.width);
    assert((c * cw) / cw == c);
    assert((w * 2) / 2 == w);
    assert(2 * w == w * 2);
}

} // verus!
