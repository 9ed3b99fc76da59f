//! Screen rectangles, the division of the screen into panels, and the
//! header and footer bars.

use vstd::prelude::*;
use crate::app::FocusedPanel;
use crate::text::byte_len;
use crate::ui::paint::{Line, Piece, Placed, Tone, pieces_are};
use ratatui::layout as rl;

verus! {

/// A rectangle of terminal cells.
#[derive(Debug, Clone, Copy, PartialEq, Eq, Structural)]
pub struct Rect {
    pub x: u16,
    pub y: u16,
    pub width: u16,
    pub height: u16,
}

pub open spec fn sat_add(a: int, b: int) -> int {
    if a + b > u16::MAX { u16::MAX as int } else { a + b }
}

pub open spec fn sat_sub(a: int, b: int) -> int {
    if a < b { 0 } else { a - b }
}

/// The area inside a border drawn on all four sides of `r`.
pub open spec fn inside_border(r: Rect) -> Rect {
    Rect {
        x: min_int(sat_add(r.x as int, 1), sat_add(r.x as int, r.width as int)) as u16,
        y: min_int(sat_add(r.y as int, 1), sat_add(r.y as int, r.height as int)) as u16,
        width: sat_sub(r.width as int, 2) as u16,
        height: sat_sub(r.height as int, 2) as u16,
    }
}

pub open spec fn min_int(a: int, b: int) -> int {
    if a <= b { a } else { b }
}

impl Rect {
    /// The rectangle ends within the screen's coordinates.
    pub open spec fn fits(self) -> bool {
        self.x + self.width <= u16::MAX && self.y + self.height <= u16::MAX
    }

    /// A rectangle at `(x, y)`; its width and height are cut so that it ends
    /// within the screen's coordinates.
    pub fn new(x: u16, y: u16, width: u16, height: u16) -> (r: Rect)
        ensures
            r == (Rect {
                x,
                y,
                width: min_int(width as int, u16::MAX - x) as u16,
                height: min_int(height as int, u16::MAX - y) as u16,
            }),
            r.fits(),
    {
        let max_width = u16::MAX - x;
        let max_height = u16::MAX - y;
        let width = if width > max_width { max_width } else { width };
        let height = if height > max_height { max_height } else { height };
        Rect { x, y, width, height }
    }

    /// The area inside a border on all four sides.
    pub fn bordered_inner(&self) -> (r: Rect)
        ensures
            r == inside_border(*self),
    {
        ratatui_bordered_inner(self)
    }
}

/// `ratatui::widgets::Block::inner` of a block with borders on all sides and
/// no padding: one cell less on each side, never past the far edge, with
/// saturating arithmetic.
#[verifier::external_body]
fn ratatui_bordered_inner(r: &Rect) -> (i: Rect)
    ensures
        i == inside_border(*r),
{
    let area = ratatui::layout::Rect { x: r.x, y: r.y, width: r.width, height: r.height };
    let inner = ratatui::widgets::Block::default().borders(ratatui::widgets::Borders::ALL).inner(area);
    Rect { x: inner.x, y: inner.y, width: inner.width, height: inner.height }
}

/// How a layout divides an area, as ratatui's `Constraint` does.
#[derive(Debug, Clone, Copy, PartialEq, Eq, Structural)]
pub enum Constraint {
    /// A fixed number of cells.
    Length(u16),
    /// At least this many cells.
    Min(u16),
    /// A share of the area, in percent.
    Percentage(u16),
}

/// `inner` lies within `outer`.
pub open spec fn within(inner: Rect, outer: Rect) -> bool {
    &&& outer.x <= inner.x
    &&& inner.x + inner.width <= outer.x + outer.width
    &&& outer.y <= inner.y
    &&& inner.y + inner.height <= outer.y + outer.height
}

/// `r` divides `area` as a split into `n` parts does: one area per part,
/// each within `area` and spanning it across the direction of the split.
pub open spec fn split_ok(r: Seq<Rect>, area: Rect, vertical: bool, n: int) -> bool {
    &&& r.len() == n
    &&& forall|i: int| 0 <= i < n ==> within(#[trigger] r[i], area)
    &&& forall|i: int| 0 <= i < n ==> if vertical {
        (#[trigger] r[i]).x == area.x && r[i].width == area.width
    } else {
        (#[trigger] r[i]).y == area.y && r[i].height == area.height
    }
}

/// `ratatui::layout::Layout::split` of `area` by `constraints`, vertically or
/// horizontally.  ratatui makes every boundary of the parts a variable that
/// its solver must keep within the area (a required constraint), and copies
/// the area's position and size across the direction of the split; so there
/// is one area per constraint, each within `area`.  Where along the split
/// the boundaries fall is left unsaid: the solver may settle ties
/// differently from one process to the next.
#[verifier::external_body]
fn ratatui_split(area: Rect, vertical: bool, constraints: &Vec<Constraint>) -> (r: Vec<Rect>)
    ensures
        split_ok(r@, area, vertical, constraints@.len() as int),
{
    let cs: Vec<rl::Constraint> = constraints.iter().map(|c| match *c {
        Constraint::Length(n) => rl::Constraint::Length(n),
        Constraint::Min(n) => rl::Constraint::Min(n),
        Constraint::Percentage(n) => rl::Constraint::Percentage(n),
    }).collect();
    let dir = if vertical { rl::Direction::Vertical } else { rl::Direction::Horizontal };
    let a = rl::Rect { x: area.x, y: area.y, width: area.width, height: area.height };
    rl::Layout::default().direction(dir).constraints(cs).split(a).iter().map(|r| Rect { x: r.x, y: r.y, width: r.width, height: r.height }).collect()
}

/// Computed layout rectangles for the main panels.
#[derive(Debug, Clone, Copy, PartialEq, Eq, Structural)]
pub struct LayoutRects {
    pub calendar: Rect,
    pub event_list: Rect,
    pub upcoming: Rect,
}

/// The screen's header row, panels and footer row.
#[derive(Debug, Clone, Copy, PartialEq, Eq, Structural)]
pub struct ScreenAreas {
    pub header: Rect,
    pub panels: LayoutRects,
    pub footer: Rect,
}

/// Divide the screen `area` into the header, the three panels and the footer.
/// The header and the footer span the screen's width; the panels lie within
/// the screen, the two lists one above the other in the same column.
pub fn screen_areas(area: Rect) -> (r: ScreenAreas)
    ensures
        within(r.header, area) && r.header.x == area.x && r.header.width == area.width,
        within(r.footer, area) && r.footer.x == area.x && r.footer.width == area.width,
        within(r.panels.calendar, area),
        within(r.panels.event_list, area),
        within(r.panels.upcoming, area),
        r.panels.event_list.x == r.panels.upcoming.x && r.panels.event_list.width == r.panels.upcoming.width,
{
    let rows = ratatui_split(area, true, &vec![Constraint::Length(1), Constraint::Min(10), Constraint::Length(1)]);
    let middle = rows[1];
    assert(within(middle, area));
    let cols = ratatui_split(middle, false, &vec![Constraint::Percentage(65), Constraint::Percentage(35)]);
    let side = cols[1];
    assert(within(side, middle));
    let lists = ratatui_split(side, true, &vec![Constraint::Percentage(60), Constraint::Percentage(40)]);
    assert(within(cols[0], middle));
    assert(within(lists[0], side) && within(lists[1], side));
    ScreenAreas {
        header: rows[0],
        panels: LayoutRects { calendar: cols[0], event_list: lists[0], upcoming: lists[1] },
        footer: rows[2],
    }
}

/// Compute layout rectangles from the full terminal area: the three panels
/// lie within it, the two lists one above the other in the same column.
pub fn compute_layout(area: Rect) -> (r: LayoutRects)
    ensures
        within(r.calendar, area),
        within(r.event_list, area),
        within(r.upcoming, area),
        r.event_list.x == r.upcoming.x && r.event_list.width == r.upcoming.width,
{
    screen_areas(area).panels
}

/// The tab labels of the header, in order.
pub open spec fn tab_texts() -> Seq<Seq<char>> {
    seq!["[1]"@, "-Calendar"@, "[2]"@, "-Events"@, "[3]"@, "-Upcoming"@]
}

/// The tones of the tab labels: the focused panel's tab in the accent.
pub open spec fn tab_tones(focused: FocusedPanel) -> Seq<Tone> {
    let t1 = if focused == FocusedPanel::Calendar { Tone::ThemeAccentBold } else { Tone::ThemeMuted };
    let t2 = if focused == FocusedPanel::EventList { Tone::ThemeAccentBold } else { Tone::ThemeMuted };
    let t3 = if focused == FocusedPanel::Upcoming { Tone::ThemeAccentBold } else { Tone::ThemeMuted };
    seq![t1, t1, t2, t2, t3, t3]
}

/// What the header draws: the tabs on the left and the clock on the right.
#[derive(Debug, Clone)]
pub struct HeaderLayout {
    pub tabs: Line,
    pub clock: Placed,
}

/// The columns kept for a text of `len` bytes, as its length taken to a `u16`.
pub open spec fn kept_width(len: int) -> int {
    len % 65536
}

/// The header in row `area`, with the time written `time`.
pub fn header_layout(area: Rect, focused: FocusedPanel, time: &str) -> (r: HeaderLayout)
    requires
        area.fits(),
    ensures
        ({
            let right = area.x + sat_sub(area.width as int, kept_width(byte_len(time@)));
            &&& r.tabs.x == area.x && r.tabs.y == area.y
            &&& r.tabs.width == sat_sub(area.width as int, kept_width(byte_len(time@)))
            &&& pieces_are(r.tabs.pieces@, tab_texts(), tab_tones(focused))
            &&& r.clock.x == right && r.clock.y == area.y && r.clock.text@ == time@ && r.clock.tone == Tone::ThemeText
        }),
{
    let t1 = if focused == FocusedPanel::Calendar { Tone::ThemeAccentBold } else { Tone::ThemeMuted };
    let t2 = if focused == FocusedPanel::EventList { Tone::ThemeAccentBold } else { Tone::ThemeMuted };
    let t3 = if focused == FocusedPanel::Upcoming { Tone::ThemeAccentBold } else { Tone::ThemeMuted };
    let pieces = vec![
        Piece { text: "[1]".to_owned(), tone: t1 },
        Piece { text: "-Calendar".to_owned(), tone: t1 },
        Piece { text: "[2]".to_owned(), tone: t2 },
        Piece { text: "-Events".to_owned(), tone: t2 },
        Piece { text: "[3]".to_owned(), tone: t3 },
        Piece { text: "-Upcoming".to_owned(), tone: t3 },
    ];
    let len = time.as_bytes().len();
    let kept = (len % 65536) as u16;
    let width = if area.width >= kept { area.width - kept } else { 0 };
    HeaderLayout {
        tabs: Line { x: area.x, y: area.y, width, pieces },
        clock: Placed { x: area.x + width, y: area.y, text: time.to_owned(), tone: Tone::ThemeText },
    }
}

/// The hint at the right of the footer.
pub open spec fn footer_hint() -> Seq<char> {
    "ctrl+p: commands"@
}

/// What the footer draws: the status message on the left, the hint on the right.
#[derive(Debug, Clone)]
pub struct FooterLayout {
    pub status: Option<Line>,
    pub hint: Placed,
}

/// The footer in row `area`; the status message gets the `status_width`
/// leftmost columns.
pub fn footer_layout(area: Rect, status: &Option<String>, status_width: u16) -> (r: FooterLayout)
    requires
        area.fits(),
    ensures
        match status {
            Some(m) => r.status matches Some(l) && l.x == area.x && l.y == area.y && l.width == status_width
                && pieces_are(l.pieces@, seq![seq![' '] + m@ + seq![' ']], seq![Tone::ThemeAccent]),
            None => r.status is None,
        },
        r.hint.x == area.x + sat_sub(area.width as int, 16) && r.hint.y == area.y,
        r.hint.text@ == footer_hint() && r.hint.tone == Tone::ThemeMuted,
{
    let line = match status {
        Some(m) => {
            let mut t = String::new();
            crate::text::string_push(&mut t, ' ');
            t.append(m.as_str());
            crate::text::string_push(&mut t, ' ');
            assert(t@ =~= seq![' '] + m@ + seq![' ']);
            Some(Line { x: area.x, y: area.y, width: status_width, pieces: vec![Piece { text: t, tone: Tone::ThemeAccent }] })
        },
        None => None,
    };
    let hint = "ctrl+p: commands";
    proof {
        reveal_strlit("ctrl+p: commands");
    }
    let x = area.x + if area.width >= 16 { area.width - 16 } else { 0 };
    FooterLayout { status: line, hint: Placed { x, y: area.y, text: hint.to_owned(), tone: Tone::ThemeMuted } }
}

} // verus!
