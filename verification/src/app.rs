//! Application state: the event form and the navigation state machine.
//!
//! The functions here decide; the program around them loads and stores data.
//! Where a step needs stored data, the method says so in what it returns.

use vstd::prelude::*;
use crate::calendar::grid::{lemma_month_in_range, week_offset, week_start_date};
use crate::config::Config;
use crate::date::{Date, MAX_YEAR, MIN_YEAR, day_number, max_day_number, min_day_number, month_length, parsed_date, ymd_text};
use crate::daymap::DayMap;
use crate::events::{Event, EventSource, Recurrence, all_dates_valid, recurrence_from_label, recurrence_label};
use crate::text::{parse_u32, parsed_u32, str_equals, trim, trimmed};
use crate::ui::calendar_view::{hit_test_monthly, monthly_cell_at};
use crate::ui::event_list::hit_test_event_list;
use crate::ui::layout::{LayoutRects, Rect, inside_border};
use crate::ui::text_input::TextInput;
use crate::ui::weekly_view::{hit_test_weekly, weekly_cell_at};
use crate::calendar::grid::CalendarGrid;

verus! {

/// Modal mode: create or edit.
#[derive(Debug, Clone, Copy, PartialEq, Eq, Structural)]
pub enum ModalMode {
    Create,
    Edit,
}

/// View mode for the calendar.
#[derive(Debug, Clone, Copy, PartialEq, Eq, Structural)]
pub enum ViewMode {
    Monthly,
    Weekly,
}

impl Default for ViewMode {
    fn default() -> (r: Self)
        ensures
            r == ViewMode::Monthly,
    {
        ViewMode::Monthly
    }
}

/// A single form field in the modal.
#[derive(Debug, Clone)]
pub struct FormField {
    pub label: &'static str,
    pub input: TextInput,
}

/// State for the event creation/editing modal.
#[derive(Debug, Clone)]
pub struct ModalState {
    pub mode: ModalMode,
    pub event_id: Option<i64>,
    pub fields: Vec<FormField>,
    pub focused_field: usize,
    pub error_message: Option<String>,
}

pub open spec fn msg_time_format() -> Seq<char> {
    "Time must be HH:MM"@
}

pub open spec fn msg_invalid_time() -> Seq<char> {
    "Invalid time format"@
}

pub open spec fn msg_time_range() -> Seq<char> {
    "Time must be HH:MM (00:00-23:59)"@
}

pub open spec fn msg_title_required() -> Seq<char> {
    "Title is required"@
}

pub open spec fn msg_bad_date() -> Seq<char> {
    "Date must be YYYY-MM-DD"@
}

pub open spec fn msg_end_before_start() -> Seq<char> {
    "End time must be after start time"@
}

/// `s` holds exactly one `:`, at index `i`.
pub open spec fn single_colon_at(s: Seq<char>, i: int) -> bool {
    &&& 0 <= i < s.len()
    &&& s[i] == ':'
    &&& forall|j: int| 0 <= j < s.len() && j != i ==> #[trigger] s[j] != ':'
}

/// What parsing `HH:MM` gives: the hours and minutes, or the error message.
pub open spec fn time_parse(s: Seq<char>) -> Result<(u32, u32), Seq<char>> {
    if exists|i: int| single_colon_at(s, i) {
        let i = choose|i: int| single_colon_at(s, i);
        match (parsed_u32(s.take(i)), parsed_u32(s.skip(i + 1))) {
            (Some(h), Some(m)) => if h > 23 || m > 59 {
                Err(msg_time_range())
            } else {
                Ok((h, m))
            },
            _ => Err(msg_invalid_time()),
        }
    } else {
        Err(msg_time_format())
    }
}

/// Result of parsing, with the message as a `String`.
pub open spec fn time_result_matches(r: Result<(u32, u32), String>, s: Seq<char>) -> bool {
    match r {
        Ok(t) => time_parse(s) == Ok::<(u32, u32), Seq<char>>(t),
        Err(e) => time_parse(s) == Err::<(u32, u32), Seq<char>>(e@),
    }
}

/// Parse a time string in HH:MM format.
pub fn parse_time(s: &str) -> (r: Result<(u32, u32), String>)
    ensures
        time_result_matches(r, s@),
{
    let n = s.unicode_len();
    let mut i: usize = 0;
    while i < n && s.get_char(i) != ':'
        invariant
            n == s@.len(),
            i <= n,
            forall|j: int| 0 <= j < i ==> s@[j] != ':',
        decreases n - i,
    {
        i = i + 1;
    }
    if i == n {
        proof {
            assert(!(exists|k: int| single_colon_at(s@, k)));
        }
        return Err("Time must be HH:MM".to_owned());
    }
    let mut j: usize = i + 1;
    while j < n && s.get_char(j) != ':'
        invariant
            n == s@.len(),
            i < j <= n,
            s@[i as int] == ':',
            forall|t: int| 0 <= t < i ==> s@[t] != ':',
            forall|t: int| i < t < j ==> s@[t] != ':',
        decreases n - j,
    {
        j = j + 1;
    }
    if j < n {
        proof {
            assert forall|k: int| !single_colon_at(s@, k) by {
                if single_colon_at(s@, k) {
                    if k != i as int {
                        assert(s@[i as int] != ':');
                    } else {
                        assert(s@[j as int] != ':');
                    }
                }
            }
        }
        return Err("Time must be HH:MM".to_owned());
    }
    proof {
        assert(single_colon_at(s@, i as int));
        let k = choose|k: int| single_colon_at(s@, k);
        if k != i as int {
            assert(s@[i as int] != ':');
        }
    }
    let hours = parse_u32(s.substring_char(0, i));
    let minutes = parse_u32(s.substring_char(i + 1, n));
    proof {
        assert(s@.subrange(0, i as int) =~= s@.take(i as int));
        assert(s@.subrange(i + 1, n as int) =~= s@.skip(i + 1));
    }
    match (hours, minutes) {
        (Some(h), Some(m)) => {
            if h > 23 || m > 59 {
                Err("Time must be HH:MM (00:00-23:59)".to_owned())
            } else {
                Ok((h, m))
            }
        },
        _ => Err("Invalid time format".to_owned()),
    }
}

/// `a` is earlier than `b`.
pub open spec fn time_before(a: (u32, u32), b: (u32, u32)) -> bool {
    a.0 < b.0 || (a.0 == b.0 && a.1 < b.1)
}

/// What validating the form's texts gives.
pub open spec fn form_validation(f: Seq<Seq<char>>) -> Result<(), Seq<char>> {
    let start = trimmed(f[2]);
    let end = trimmed(f[3]);
    if trimmed(f[0]).len() == 0 {
        Err(msg_title_required())
    } else if parsed_date(trimmed(f[1])) is None {
        Err(msg_bad_date())
    } else if start.len() > 0 && time_parse(start) is Err {
        Err(time_parse(start)->Err_0)
    } else if end.len() > 0 && time_parse(end) is Err {
        Err(time_parse(end)->Err_0)
    } else if start.len() > 0 && end.len() > 0 && time_before(
        time_parse(end)->Ok_0,
        time_parse(start)->Ok_0,
    ) {
        Err(msg_end_before_start())
    } else {
        Ok(())
    }
}

/// The text of an optional field: `None` when it is blank.
pub open spec fn optional_text(s: Seq<char>) -> Option<Seq<char>> {
    if trimmed(s).len() == 0 { None } else { Some(trimmed(s)) }
}

pub open spec fn optional_matches(o: Option<String>, s: Seq<char>) -> bool {
    match o {
        Some(t) => optional_text(s) == Some(t@),
        None => optional_text(s) is None,
    }
}

/// The recurrence label that follows `s` when cycling.
pub open spec fn next_recurrence_label(s: Seq<char>) -> Seq<char> {
    if s == "none"@ {
        "daily"@
    } else if s == "daily"@ {
        "weekly"@
    } else if s == "weekly"@ {
        "monthly"@
    } else {
        "none"@
    }
}

pub open spec fn form_labels() -> Seq<Seq<char>> {
    seq![
        "Title"@,
        "Date (YYYY-MM-DD)"@,
        "Start Time (HH:MM)"@,
        "End Time (HH:MM)"@,
        "Description"@,
        "Recurrence (Space to cycle)"@,
    ]
}

pub open spec fn form_limits() -> Seq<usize> {
    seq![200usize, 10, 5, 5, 500, 10]
}

fn make_field(label: &'static str, value: &str, max_length: usize) -> (r: FormField)
    ensures
        r.label == label,
        r.input.wf(),
        r.input@ == (value@, value@.len() as int),
        r.input.max_length == max_length,
{
    FormField { label, input: TextInput::with_value(value, max_length) }
}

fn optional_str(s: &Option<String>) -> (r: &str)
    ensures
        r@ == (match s {
            Some(t) => t@,
            None => Seq::<char>::empty(),
        }),
{
    proof {
        reveal_strlit("");
    }
    match s {
        Some(t) => t.as_str(),
        None => "",
    }
}

fn optional_field(s: &str) -> (r: Option<String>)
    ensures
        optional_matches(r, s@),
{
    let t = trim(s);
    if t.unicode_len() == 0 {
        None
    } else {
        Some(t.to_owned())
    }
}

impl ModalState {
    /// The texts of the form's fields.
    pub open spec fn texts(self) -> Seq<Seq<char>> {
        self.fields@.map_values(|f: FormField| f.input.buffer@)
    }

    /// Every field's input is well formed and the focus is on a field.
    pub open spec fn wf(self) -> bool {
        &&& self.fields@.len() == 6
        &&& self.focused_field < 6
        &&& forall|i: int| 0 <= i < 6 ==> (#[trigger] self.fields@[i]).input.wf()
    }

    /// The form's layout: six labelled fields with their length limits.
    pub open spec fn has_form_layout(self) -> bool {
        &&& self.fields@.len() == 6
        &&& forall|i: int| 0 <= i < 6 ==> (#[trigger] self.fields@[i]).label@ == form_labels()[i]
            && self.fields@[i].input.max_length == form_limits()[i]
    }

    /// Create a new modal for creating an event, with date pre-filled.
    pub fn new_create(selected_date: Date) -> (r: Self)
        requires
            selected_date.valid(),
        ensures
            r.wf(),
            r.has_form_layout(),
            r.mode == ModalMode::Create,
            r.event_id is None,
            r.focused_field == 0,
            r.error_message is None,
            r.texts() == seq![
                Seq::<char>::empty(),
                ymd_text(selected_date),
                Seq::<char>::empty(),
                Seq::<char>::empty(),
                Seq::<char>::empty(),
                "none"@,
            ],
    {
        let date_str = selected_date.format_ymd();
        let fields = vec![
            FormField { label: "Title", input: TextInput::new(200) },
            make_field("Date (YYYY-MM-DD)", date_str.as_str(), 10),
            FormField { label: "Start Time (HH:MM)", input: TextInput::new(5) },
            FormField { label: "End Time (HH:MM)", input: TextInput::new(5) },
            FormField { label: "Description", input: TextInput::new(500) },
            make_field("Recurrence (Space to cycle)", "none", 10),
        ];
        let r = Self { mode: ModalMode::Create, event_id: None, fields, focused_field: 0, error_message: None };
        proof {
            assert(r.texts() =~= seq![
                Seq::<char>::empty(),
                ymd_text(selected_date),
                Seq::<char>::empty(),
                Seq::<char>::empty(),
                Seq::<char>::empty(),
                "none"@,
            ]);
        }
        r
    }

    /// Create a new modal for editing an event, pre-populated.
    pub fn new_edit(event: &Event) -> (r: Self)
        requires
            event.date.valid(),
        ensures
            r.wf(),
            r.has_form_layout(),
            r.mode == ModalMode::Edit,
            r.event_id == Some(event.id),
            r.focused_field == 0,
            r.error_message is None,
            r.texts() == seq![
                event.title@,
                ymd_text(event.date),
                match event.start_time { Some(t) => t@, None => Seq::<char>::empty() },
                match event.end_time { Some(t) => t@, None => Seq::<char>::empty() },
                match event.description { Some(t) => t@, None => Seq::<char>::empty() },
                recurrence_label(event.recurrence),
            ],
    {
        let date_str = event.date.format_ymd();
        let start_time = optional_str(&event.start_time);
        let end_time = optional_str(&event.end_time);
        let description = optional_str(&event.description);
        let recurrence_str = event.recurrence.to_str();
        let fields = vec![
            make_field("Title", event.title.as_str(), 200),
            make_field("Date (YYYY-MM-DD)", date_str.as_str(), 10),
            make_field("Start Time (HH:MM)", start_time, 5),
            make_field("End Time (HH:MM)", end_time, 5),
            make_field("Description", description, 500),
            make_field("Recurrence (Space to cycle)", recurrence_str, 10),
        ];
        let r = Self { mode: ModalMode::Edit, event_id: Some(event.id), fields, focused_field: 0, error_message: None };
        proof {
            assert(r.texts() =~= seq![
                event.title@,
                ymd_text(event.date),
                match event.start_time { Some(t) => t@, None => Seq::<char>::empty() },
                match event.end_time { Some(t) => t@, None => Seq::<char>::empty() },
                match event.description { Some(t) => t@, None => Seq::<char>::empty() },
                recurrence_label(event.recurrence),
            ]);
        }
        r
    }

    /// Validate all fields. Returns Ok(()) if valid, Err(message) if invalid.
    pub fn validate(&self) -> (r: Result<(), String>)
        requires
            self.fields@.len() >= 4,
        ensures
            match r {
                Ok(()) => form_validation(self.texts()) == Ok::<(), Seq<char>>(()),
                Err(e) => form_validation(self.texts()) == Err::<(), Seq<char>>(e@),
            },
    {
        let ghost f = self.texts();
        proof {
            assert(f[0] == self.fields@[0].input.buffer@);
            assert(f[1] == self.fields@[1].input.buffer@);
            assert(f[2] == self.fields@[2].input.buffer@);
            assert(f[3] == self.fields@[3].input.buffer@);
        }
        // Title required
        let title = trim(self.fields[0].input.value());
        if title.unicode_len() == 0 {
            return Err("Title is required".to_owned());
        }
        // Date must be YYYY-MM-DD
        let date_str = trim(self.fields[1].input.value());
        if Date::parse_ymd(date_str).is_none() {
            return Err("Date must be YYYY-MM-DD".to_owned());
        }
        // Start time: HH:MM when non-empty
        let start_str = trim(self.fields[2].input.value());
        let start_time = if start_str.unicode_len() > 0 {
            match parse_time(start_str) {
                Ok(t) => Some(t),
                Err(e) => return Err(e),
            }
        } else {
            None
        };
        // End time: HH:MM when non-empty
        let end_str = trim(self.fields[3].input.value());
        let end_time = if end_str.unicode_len() > 0 {
            match parse_time(end_str) {
                Ok(t) => Some(t),
                Err(e) => return Err(e),
            }
        } else {
            None
        };
        // End time must be >= start time when both provided
        if let (Some(start), Some(end)) = (start_time, end_time) {
            if end.0 < start.0 || (end.0 == start.0 && end.1 < start.1) {
                return Err("End time must be after start time".to_owned());
            }
        }
        Ok(())
    }

    /// Extract parsed event data from the form fields.
    pub fn to_event_data(&self) -> (r: Option<
        (String, Date, Option<String>, Option<String>, Option<String>, Recurrence),
    >)
        requires
            self.fields@.len() >= 6,
        ensures
            r is Some <==> parsed_date(trimmed(self.texts()[1])) is Some,
            r matches Some(d) ==> {
                &&& d.0@ == trimmed(self.texts()[0])
                &&& Some(d.1) == parsed_date(trimmed(self.texts()[1]))
                &&& optional_matches(d.2, self.texts()[2])
                &&& optional_matches(d.3, self.texts()[3])
                &&& optional_matches(d.4, self.texts()[4])
                &&& d.5 == recurrence_from_label(trimmed(self.texts()[5]))
            },
            forall|d: Date| d.valid() && self.texts()[1] == #[trigger] ymd_text(d) ==> (r matches Some(x) && x.1 == d),
    {
        let ghost f = self.texts();
        proof {
            assert(f[0] == self.fields@[0].input.buffer@);
            assert(f[1] == self.fields@[1].input.buffer@);
            assert(f[2] == self.fields@[2].input.buffer@);
            assert(f[3] == self.fields@[3].input.buffer@);
            assert(f[4] == self.fields@[4].input.buffer@);
            assert(f[5] == self.fields@[5].input.buffer@);
        }
        let title = trim(self.fields[0].input.value()).to_owned();
        let date_text = trim(self.fields[1].input.value());
        let parsed = Date::parse_ymd(date_text);
        proof {
            assert forall|d: Date| d.valid() && f[1] == #[trigger] ymd_text(d) implies parsed == Some(d) by {
                crate::date::lemma_ymd_text_trimmed(d);
            }
        }
        let date = match parsed {
            Some(d) => d,
            None => return None,
        };
        let start_time = optional_field(self.fields[2].input.value());
        let end_time = optional_field(self.fields[3].input.value());
        let description = optional_field(self.fields[4].input.value());
        let recurrence = Recurrence::from_stored(trim(self.fields[5].input.value()));
        Some((title, date, start_time, end_time, description, recurrence))
    }

    /// Cycle the recurrence field through the options.
    pub fn cycle_recurrence(&mut self)
        requires
            old(self).fields@.len() >= 6,
        ensures
            final(self).fields@.len() == old(self).fields@.len(),
            final(self).fields@[5].label == old(self).fields@[5].label,
            final(self).fields@[5].input.wf(),
            final(self).fields@[5].input.max_length == 10,
            final(self).fields@[5].input@ == (
                next_recurrence_label(trimmed(old(self).texts()[5])),
                next_recurrence_label(trimmed(old(self).texts()[5])).len() as int,
            ),
            forall|i: int| 0 <= i < old(self).fields@.len() && i != 5 ==> final(self).fields@[i] == old(self).fields@[i],
            final(self).mode == old(self).mode,
            final(self).event_id == old(self).event_id,
            final(self).focused_field == old(self).focused_field,
            final(self).error_message == old(self).error_message,
    {
        proof {
            assert(old(self).texts()[5] == self.fields@[5].input.buffer@);
        }
        let current = trim(self.fields[5].input.value());
        let next = if str_equals(current, "none") {
            "daily"
        } else if str_equals(current, "daily") {
            "weekly"
        } else if str_equals(current, "weekly") {
            "monthly"
        } else {
            "none"
        };
        let label = self.fields[5].label;
        self.fields.set(5, FormField { label, input: TextInput::with_value(next, 10) });
    }

    /// Move focus to the next field (wraps).
    pub fn focus_next(&mut self)
        requires
            old(self).fields@.len() > 0,
            old(self).focused_field < usize::MAX,
        ensures
            final(self).focused_field == (old(self).focused_field + 1) % (old(self).fields@.len() as int),
            final(self).fields == old(self).fields,
            final(self).mode == old(self).mode,
            final(self).event_id == old(self).event_id,
            final(self).error_message == old(self).error_message,
    {
        self.focused_field = (self.focused_field + 1) % self.fields.len();
    }

    /// Move focus to the previous field (wraps).
    pub fn focus_prev(&mut self)
        requires
            old(self).fields@.len() > 0,
        ensures
            final(self).focused_field == (if old(self).focused_field == 0 {
                old(self).fields@.len() - 1
            } else {
                old(self).focused_field - 1
            }),
            final(self).fields == old(self).fields,
            final(self).mode == old(self).mode,
            final(self).event_id == old(self).event_id,
            final(self).error_message == old(self).error_message,
    {
        if self.focused_field == 0 {
            self.focused_field = self.fields.len() - 1;
        } else {
            self.focused_field = self.focused_field - 1;
        }
    }
}

/// A key as the application sees it.
#[derive(Debug, Clone, Copy, PartialEq, Eq, Structural)]
pub enum Key {
    Char(char),
    Enter,
    Esc,
    Tab,
    Backspace,
    Left,
    Right,
    Up,
    Down,
    Home,
    End,
    Other,
}

/// A key press: the key and whether Shift or Ctrl was held.
#[derive(Debug, Clone, Copy, PartialEq, Eq, Structural)]
pub struct KeyPress {
    pub key: Key,
    pub shift: bool,
    pub ctrl: bool,
}

/// The panel that has the keyboard focus.
#[derive(Debug, Clone, Copy, PartialEq, Eq, Structural)]
pub enum FocusedPanel {
    Calendar,
    EventList,
    Upcoming,
}

/// Stored data that must be loaded again after a step.
#[derive(Debug, Clone, Copy, PartialEq, Eq, Structural)]
pub enum Refresh {
    /// Nothing to load.
    Nothing,
    /// The events of the selected day.
    SelectedDay,
    /// Holidays, event dates, the week's events (in weekly view), upcoming
    /// events and the events of the selected day.
    All,
}

/// What a key press in the event form asks for.
#[derive(Debug, Clone, Copy, PartialEq, Eq, Structural)]
pub enum ModalKeyAction {
    /// No form is open.
    NotHandled,
    /// The key was taken by the form.
    Handled,
    /// The form should be saved.
    Save,
}

/// An event to create or update, read from the form.
#[derive(Debug, Clone)]
pub struct SaveRequest {
    pub mode: ModalMode,
    pub event_id: Option<i64>,
    pub title: String,
    pub date: Date,
    pub start_time: Option<String>,
    pub end_time: Option<String>,
    pub description: Option<String>,
    pub recurrence: Recurrence,
}

/// Application state.
pub struct App {
    pub config: Config,
    pub running: bool,
    pub today: Date,
    pub view_year: i32,
    pub view_month: u32,
    pub selected_date: Date,
    pub holidays: DayMap<String>,
    pub event_dates: Vec<Date>,
    pub selected_day_events: Vec<Event>,
    pub upcoming_events: Vec<Event>,
    pub view_mode: ViewMode,
    pub week_events: DayMap<Vec<Event>>,
    pub modal: Option<ModalState>,
    pub selected_event_index: Option<usize>,
    pub confirm_delete: bool,
    pub status_message: Option<String>,
    pub focused_panel: FocusedPanel,
    pub selected_upcoming_index: Option<usize>,
    pub command_palette_open: bool,
    pub event_detail: Option<Event>,
}

/// `o` holds the message `s`.
pub open spec fn has_message(o: Option<String>, s: Seq<char>) -> bool {
    o matches Some(m) && m@ == s
}

/// A date whose month and the weeks around it can be shown.
pub open spec fn showable(d: Date) -> bool {
    d.valid() && month_ok(d.year as int, d.month as int)
}

/// A month whose calendar can be drawn: any month but January of the first
/// representable year and December of the last, whose grids would reach
/// past the representable range.
pub open spec fn month_ok(y: int, m: int) -> bool {
    &&& MIN_YEAR <= y <= MAX_YEAR
    &&& 1 <= m <= 12
    &&& MIN_YEAR < y || m > 1
    &&& y < MAX_YEAR || m < 12
}

/// The month before `(y, m)`.
pub open spec fn month_before(y: int, m: int) -> (int, int) {
    if m == 1 { (y - 1, 12) } else { (y, m - 1) }
}

/// The month after `(y, m)`.
pub open spec fn month_after(y: int, m: int) -> (int, int) {
    if m == 12 { (y + 1, 1) } else { (y, m + 1) }
}

/// The selection after the selected day's events were replaced by `n` events.
pub open spec fn clamped_selection(sel: Option<usize>, n: int) -> Option<usize> {
    match sel {
        Some(i) => if i >= n {
            if n == 0 { None } else { Some((n - 1) as usize) }
        } else {
            Some(i)
        },
        None => None,
    }
}

/// The selection after moving down a list of `n` events.
pub open spec fn next_selection(sel: Option<usize>, n: int) -> Option<usize> {
    if n == 0 {
        None
    } else {
        match sel {
            Some(i) => if i + 1 < n { Some((i + 1) as usize) } else { Some(i) },
            None => Some(0),
        }
    }
}

/// The selection after moving up a list of `n` events.
pub open spec fn prev_selection(sel: Option<usize>, n: int) -> Option<usize> {
    if n == 0 {
        None
    } else {
        match sel {
            Some(i) => if i == 0 { Some(0) } else { Some((i - 1) as usize) },
            None => Some(0),
        }
    }
}

/// The selection after deleting the selected one of `n` events.
pub open spec fn selection_after_delete(sel: Option<usize>, idx: int, n: int) -> Option<usize> {
    if n <= 1 {
        None
    } else if idx >= n - 1 {
        Some((n - 2) as usize)
    } else {
        sel
    }
}

/// `b` is `a` with `date` selected: the viewed month follows the date, and
/// the data to load is everything when the month changed, else the day's events.
pub open spec fn selects(a: App, b: App, date: Date, r: Refresh) -> bool {
    let month_changed = date.year != a.view_year || date.month != a.view_month;
    &&& b == App {
        selected_date: date,
        view_year: if month_changed { date.year } else { a.view_year },
        view_month: if month_changed { date.month } else { a.view_month },
        ..a
    }
    &&& r == (if month_changed { Refresh::All } else { Refresh::SelectedDay })
}

/// The panel that key `n` (1, 2 or 3) switches to; other numbers keep `current`.
pub open spec fn panel_for(n: u32, current: FocusedPanel) -> FocusedPanel {
    if n == 1 {
        FocusedPanel::Calendar
    } else if n == 2 {
        FocusedPanel::EventList
    } else if n == 3 {
        FocusedPanel::Upcoming
    } else {
        current
    }
}

/// The panel after `p` when cycling the focus.
pub open spec fn next_panel(p: FocusedPanel) -> FocusedPanel {
    match p {
        FocusedPanel::Calendar => FocusedPanel::EventList,
        FocusedPanel::EventList => FocusedPanel::Upcoming,
        FocusedPanel::Upcoming => FocusedPanel::Calendar,
    }
}

/// The keys that close the command palette: Esc, Ctrl+P and q.
pub open spec fn closes_palette(k: KeyPress) -> bool {
    k.key == Key::Esc || (k.key == Key::Char('p') && k.ctrl) || k.key == Key::Char('q')
}

/// The keys that close the event details: Esc and Enter.
pub open spec fn closes_detail(k: KeyPress) -> bool {
    k.key == Key::Esc || k.key == Key::Enter
}

/// `q` is the event that the valid form `m` describes.
pub open spec fn request_matches(m: ModalState, q: SaveRequest) -> bool {
    &&& q.mode == m.mode
    &&& q.event_id == m.event_id
    &&& q.title@ == trimmed(m.texts()[0])
    &&& Some(q.date) == parsed_date(trimmed(m.texts()[1]))
    &&& optional_matches(q.start_time, m.texts()[2])
    &&& optional_matches(q.end_time, m.texts()[3])
    &&& optional_matches(q.description, m.texts()[4])
    &&& q.recurrence == recurrence_from_label(trimmed(m.texts()[5]))
}

/// The id of the selected event when it is a local one.
pub open spec fn deletable(a: App) -> Option<i64> {
    match a.selected_event_index {
        Some(i) => if i < a.selected_day_events@.len() && a.selected_day_events@[i as int].source == EventSource::Local {
            Some(a.selected_day_events@[i as int].id)
        } else {
            None
        },
        None => None,
    }
}

/// What the front end does after a key: redraw, load stored data again,
/// store the form's event (then `finish_save`), or delete a stored event
/// (then `finish_delete`).
#[derive(Debug)]
pub enum Outcome {
    Done,
    Reload(Refresh),
    Save(SaveRequest),
    Delete(i64),
}

/// `(x, y)` lies in `r`.
pub open spec fn in_rect(x: int, y: int, r: Rect) -> bool {
    r.x <= x < r.x + r.width && r.y <= y < r.y + r.height
}

/// The day number under a click at `(x, y)` in the calendar panel `rect`, if
/// the click is on a day.  A weekly grid taller than 253 rows takes no clicks
/// on days.
pub open spec fn clicked_day(a: App, x: int, y: int, rect: Rect) -> Option<int> {
    match a.view_mode {
        ViewMode::Monthly => {
            let grid = CalendarGrid { year: a.view_year, month: a.view_month, first_day: a.config.first_day_of_week };
            match monthly_cell_at(x, y, rect) {
                Some(rc) => if 7 * rc.0 < grid.cell_count() {
                    Some(grid.first().days() - grid.offset() + 7 * rc.0 + rc.1)
                } else {
                    None
                },
                None => None,
            }
        },
        ViewMode::Weekly => if rect.height <= 253 {
            match weekly_cell_at(x, y, rect) {
                Some(c) => Some(a.selected_date.days() - week_offset(a.config.first_day_of_week, a.selected_date) + c.0),
                None => None,
            }
        } else {
            None
        },
    }
}

/// The row of a list drawn in `rect` under `y`, among `n` rows.
pub open spec fn clicked_row(y: int, rect: Rect, n: int) -> Option<usize> {
    let inner = inside_border(rect);
    if inner.height < 1 || n == 0 || y < inner.y || y >= inner.y + inner.height || y - inner.y >= n {
        None
    } else {
        Some((y - inner.y) as usize)
    }
}

/// The form after a click on field `field` (when it is one of its six).
pub open spec fn focus_clicked(m: ModalState, field: Option<usize>) -> ModalState {
    match field {
        Some(i) => if i < 6 { ModalState { focused_field: i, ..m } } else { m },
        None => m,
    }
}

/// What a click does when no overlay is open: it focuses the panel under
/// it and selects the day or the event it falls on.
pub open spec fn click_effect(a: App, b: App, x: int, y: int, rects: LayoutRects, r: Outcome) -> bool {
    if in_rect(x, y, rects.calendar) {
        let f = App { focused_panel: FocusedPanel::Calendar, ..a };
        match clicked_day(a, x, y, rects.calendar) {
            Some(day) => if first_navigable_day() <= day <= last_navigable_day() {
                b.selected_date.valid() && b.selected_date.days() == day && (r matches Outcome::Reload(rr) && selects(
                    f,
                    b,
                    b.selected_date,
                    rr,
                ))
            } else {
                b == f && r is Done
            },
            None => b == f && r is Done,
        }
    } else if in_rect(x, y, rects.event_list) {
        let f = App { focused_panel: FocusedPanel::EventList, ..a };
        r is Done && match clicked_row(y, rects.event_list, a.selected_day_events@.len() as int) {
            Some(i) => b == App { selected_event_index: Some(i), ..f },
            None => b == f,
        }
    } else if in_rect(x, y, rects.upcoming) {
        let f = App { focused_panel: FocusedPanel::Upcoming, ..a };
        r is Done && match clicked_row(y, rects.upcoming, a.upcoming_events@.len() as int) {
            Some(i) => b == App { selected_upcoming_index: Some(i), ..f },
            None => b == f,
        }
    } else {
        b == a && r is Done
    }
}

/// First day that navigation may select.
pub open spec fn first_navigable_day() -> int {
    day_number(MIN_YEAR as int, 2, 1)
}

/// Last day that navigation may select.
pub open spec fn last_navigable_day() -> int {
    day_number(MAX_YEAR as int, 11, 30)
}

/// Moving the selected day by `delta` days in the calendar panel; in the
/// lists, and at the ends of the calendar, nothing happens.
pub open spec fn moves_day(a: App, b: App, delta: int, r: Outcome) -> bool {
    let target = a.selected_date.days() + delta;
    if a.focused_panel == FocusedPanel::Calendar && first_navigable_day() <= target <= last_navigable_day() {
        &&& b.selected_date.valid() && b.selected_date.days() == target
        &&& r matches Outcome::Reload(rr) && selects(a, b, b.selected_date, rr)
    } else {
        b == a && r is Done
    }
}

/// Moving by a week in the calendar panel (the viewed month follows), or
/// moving the selection of the focused list.
pub open spec fn moves_vertically(a: App, b: App, down: bool, r: Outcome) -> bool {
    let target = a.selected_date.days() + (if down { 7int } else { -7int });
    match a.focused_panel {
        FocusedPanel::Calendar => if first_navigable_day() <= target <= last_navigable_day() {
            &&& b.selected_date.valid() && b.selected_date.days() == target
            &&& b == App { view_year: b.selected_date.year, view_month: b.selected_date.month, selected_date: b.selected_date, ..a }
            &&& r == Outcome::Reload(Refresh::All)
        } else {
            b == a && r is Done
        },
        FocusedPanel::EventList => r is Done && b == App {
            selected_event_index: if down {
                next_selection(a.selected_event_index, a.selected_day_events@.len() as int)
            } else {
                prev_selection(a.selected_event_index, a.selected_day_events@.len() as int)
            },
            ..a
        },
        FocusedPanel::Upcoming => r is Done && b == App {
            selected_upcoming_index: if down {
                next_selection(a.selected_upcoming_index, a.upcoming_events@.len() as int)
            } else {
                prev_selection(a.selected_upcoming_index, a.upcoming_events@.len() as int)
            },
            ..a
        },
    }
}

/// `e` opens the edit form for the selected local event; a Google Calendar
/// event is refused with a message; without a selection nothing happens.
pub open spec fn opens_edit(a: App, b: App) -> bool {
    match a.selected_event_index {
        Some(i) => if i < a.selected_day_events@.len() {
            let e = a.selected_day_events@[i as int];
            if e.source == EventSource::Local {
                b == App { modal: b.modal, ..a } && (b.modal matches Some(m) && m.mode == ModalMode::Edit && m.event_id == Some(e.id))
            } else {
                b == App { status_message: b.status_message, ..a } && has_message(b.status_message, "Cannot edit Google Calendar events"@)
            }
        } else {
            b == a
        },
        None => b == a,
    }
}

/// What a key does when no overlay is open.
pub open spec fn normal_key_effect(a: App, b: App, key: KeyPress, r: Outcome) -> bool {
    match key.key {
        Key::Char(c) => if key.ctrl {
            if c == 'p' { b == App { command_palette_open: true, ..a } && r is Done } else { b == a && r is Done }
        } else if c == '1' {
            b == App { focused_panel: FocusedPanel::Calendar, ..a } && r is Done
        } else if c == '2' {
            b == App { focused_panel: FocusedPanel::EventList, ..a } && r is Done
        } else if c == '3' {
            b == App { focused_panel: FocusedPanel::Upcoming, ..a } && r is Done
        } else if c == 'q' {
            b == App { running: false, ..a } && r is Done
        } else if c == 'n' {
            &&& b == App { modal: b.modal, ..a }
            &&& b.modal matches Some(m) && m.mode == ModalMode::Create && m.focused_field == 0 && m.texts()[1] == ymd_text(a.selected_date)
            &&& r is Done
        } else if c == 'e' {
            opens_edit(a, b) && r is Done
        } else if c == 'd' {
            b == App { confirm_delete: true, ..a } && r is Done
        } else if c == 'v' {
            b == App { view_mode: if a.view_mode == ViewMode::Monthly { ViewMode::Weekly } else { ViewMode::Monthly }, ..a }
                && r == Outcome::Reload(Refresh::All)
        } else if c == 't' {
            b == App { selected_date: a.today, view_year: a.today.year, view_month: a.today.month, ..a } && r == Outcome::Reload(
                Refresh::All,
            )
        } else if c == 'h' {
            moves_day(a, b, -1, r)
        } else if c == 'l' {
            moves_day(a, b, 1, r)
        } else if c == 'k' {
            moves_vertically(a, b, false, r)
        } else if c == 'j' {
            moves_vertically(a, b, true, r)
        } else {
            b == a && r is Done
        },
        Key::Left => moves_day(a, b, -1, r),
        Key::Right => moves_day(a, b, 1, r),
        Key::Up => moves_vertically(a, b, false, r),
        Key::Down => moves_vertically(a, b, true, r),
        Key::Tab => b == App { focused_panel: next_panel(a.focused_panel), ..a } && r is Done,
        Key::Enter => b == App { event_detail: a.detail_for(), ..a } && r is Done,
        _ => b == a && r is Done,
    }
}

impl App {
    /// The state the application keeps between steps.
    pub open spec fn wf(self) -> bool {
        &&& showable(self.today)
        &&& showable(self.selected_date)
        &&& month_ok(self.view_year as int, self.view_month as int)
        &&& 1 <= self.view_month <= 12
        &&& self.holidays.wf()
        &&& self.week_events.wf()
        &&& self.modal matches Some(m) ==> m.wf()
        &&& all_dates_valid(self.selected_day_events@)
        &&& all_dates_valid(self.upcoming_events@)
        &&& forall|i: int| 0 <= i < self.event_dates@.len() ==> (#[trigger] self.event_dates@[i]).valid()
        &&& self.event_detail matches Some(e) ==> e.date.valid()
    }

    /// Fresh state for `today`, before any stored data is loaded; the caller
    /// loads everything (`Refresh::All`).
    pub fn new(config: Config, today: Date) -> (r: Self)
        requires
            showable(today),
        ensures
            r.wf(),
            r.running,
            r.today == today,
            r.selected_date == today,
            r.view_year == today.year,
            r.view_month == today.month,
            r.view_mode == ViewMode::Monthly,
            r.modal is None,
            r.selected_event_index is None,
            !r.confirm_delete,
            r.status_message is None,
            r.selected_day_events@.len() == 0,
            r.upcoming_events@.len() == 0,
            r.focused_panel == FocusedPanel::Calendar,
            r.selected_upcoming_index is None,
            !r.command_palette_open,
            r.event_detail is None,
    {
        App {
            config,
            running: true,
            today,
            view_year: today.year,
            view_month: today.month,
            selected_date: today,
            holidays: DayMap::new(),
            event_dates: Vec::new(),
            selected_day_events: Vec::new(),
            upcoming_events: Vec::new(),
            view_mode: ViewMode::Monthly,
            week_events: DayMap::new(),
            modal: None,
            selected_event_index: None,
            confirm_delete: false,
            status_message: None,
            focused_panel: FocusedPanel::Calendar,
            selected_upcoming_index: None,
            command_palette_open: false,
            event_detail: None,
        }
    }

    /// Navigate to previous month.
    pub fn prev_month(&mut self) -> (r: Refresh)
        requires
            old(self).wf(),
            month_ok(month_before(old(self).view_year as int, old(self).view_month as int).0, month_before(
                old(self).view_year as int,
                old(self).view_month as int,
            ).1),
        ensures
            final(self).wf(),
            (final(self).view_year as int, final(self).view_month as int) == month_before(
                old(self).view_year as int,
                old(self).view_month as int,
            ),
            final(self).selected_date == old(self).selected_date,
            final(self).view_mode == old(self).view_mode,
            r == Refresh::All,
    {
        if self.view_month == 1 {
            self.view_month = 12;
            self.view_year = self.view_year - 1;
        } else {
            self.view_month = self.view_month - 1;
        }
        Refresh::All
    }

    /// Navigate to next month.
    pub fn next_month(&mut self) -> (r: Refresh)
        requires
            old(self).wf(),
            month_ok(month_after(old(self).view_year as int, old(self).view_month as int).0, month_after(
                old(self).view_year as int,
                old(self).view_month as int,
            ).1),
        ensures
            final(self).wf(),
            (final(self).view_year as int, final(self).view_month as int) == month_after(
                old(self).view_year as int,
                old(self).view_month as int,
            ),
            final(self).selected_date == old(self).selected_date,
            final(self).view_mode == old(self).view_mode,
            r == Refresh::All,
    {
        if self.view_month == 12 {
            self.view_month = 1;
            self.view_year = self.view_year + 1;
        } else {
            self.view_month = self.view_month + 1;
        }
        Refresh::All
    }

    /// Moves the selection to `date`, following with the viewed month.
    fn select_date(&mut self, date: Date) -> (r: Refresh)
        requires
            old(self).wf(),
            showable(date),
        ensures
            final(self).wf(),
            selects(*old(self), *final(self), date, r),
    {
        self.selected_date = date;
        if date.month != self.view_month || date.year != self.view_year {
            self.view_year = date.year;
            self.view_month = date.month;
            Refresh::All
        } else {
            Refresh::SelectedDay
        }
    }

    /// Navigate to previous day.
    pub fn prev_day(&mut self) -> (r: Refresh)
        requires
            old(self).wf(),
            old(self).selected_date.days() - 1 >= first_navigable_day(),
        ensures
            final(self).wf(),
            final(self).selected_date.days() == old(self).selected_date.days() - 1,
            selects(*old(self), *final(self), final(self).selected_date, r),
    {
        let d = self.selected_date.pred_opt();
        proof {
            lemma_month_in_range(MIN_YEAR as int, 2);
            crate::date::lemma_day_number_bounds(self.selected_date.year as int, self.selected_date.month as int, self.selected_date.day as int);
        }
        let d = d.unwrap();
        proof {
            lemma_showable_between(d);
        }
        self.select_date(d)
    }

    /// Navigate to next day.
    pub fn next_day(&mut self) -> (r: Refresh)
        requires
            old(self).wf(),
            old(self).selected_date.days() + 1 <= last_navigable_day(),
        ensures
            final(self).wf(),
            final(self).selected_date.days() == old(self).selected_date.days() + 1,
            selects(*old(self), *final(self), final(self).selected_date, r),
    {
        proof {
            lemma_month_in_range(MAX_YEAR as int, 11);
            crate::date::lemma_day_number_bounds(self.selected_date.year as int, self.selected_date.month as int, self.selected_date.day as int);
        }
        let d = self.selected_date.succ_opt().unwrap();
        proof {
            lemma_showable_between(d);
        }
        self.select_date(d)
    }

    /// Jump to today.
    pub fn go_to_today(&mut self) -> (r: Refresh)
        requires
            old(self).wf(),
        ensures
            final(self).wf(),
            *final(self) == (App {
                selected_date: old(self).today,
                view_year: old(self).today.year,
                view_month: old(self).today.month,
                ..*old(self)
            }),
            r == Refresh::All,
    {
        self.selected_date = self.today;
        self.view_year = self.today.year;
        self.view_month = self.today.month;
        Refresh::All
    }

    /// Toggle between monthly and weekly view.
    pub fn toggle_view(&mut self) -> (r: Refresh)
        requires
            old(self).wf(),
        ensures
            final(self).wf(),
            final(self).view_mode == (if old(self).view_mode == ViewMode::Monthly {
                ViewMode::Weekly
            } else {
                ViewMode::Monthly
            }),
            *final(self) == (App { view_mode: final(self).view_mode, ..*old(self) }),
            r == Refresh::All,
    {
        self.view_mode = match self.view_mode {
            ViewMode::Monthly => ViewMode::Weekly,
            ViewMode::Weekly => ViewMode::Monthly,
        };
        Refresh::All
    }

    /// Navigate to previous week.
    pub fn prev_week(&mut self) -> (r: Refresh)
        requires
            old(self).wf(),
            old(self).selected_date.days() - 7 >= first_navigable_day(),
        ensures
            final(self).wf(),
            final(self).selected_date.days() == old(self).selected_date.days() - 7,
            *final(self) == (App {
                selected_date: final(self).selected_date,
                view_year: final(self).selected_date.year,
                view_month: final(self).selected_date.month,
                ..*old(self)
            }),
            r == Refresh::All,
    {
        proof {
            lemma_month_in_range(MIN_YEAR as int, 2);
        }
        let d = self.selected_date.add_days(-7).unwrap();
        proof {
            lemma_showable_between(d);
        }
        self.selected_date = d;
        self.view_year = d.year;
        self.view_month = d.month;
        Refresh::All
    }

    /// Navigate to next week.
    pub fn next_week(&mut self) -> (r: Refresh)
        requires
            old(self).wf(),
            old(self).selected_date.days() + 7 <= last_navigable_day(),
        ensures
            final(self).wf(),
            final(self).selected_date.days() == old(self).selected_date.days() + 7,
            *final(self) == (App {
                selected_date: final(self).selected_date,
                view_year: final(self).selected_date.year,
                view_month: final(self).selected_date.month,
                ..*old(self)
            }),
            r == Refresh::All,
    {
        proof {
            lemma_month_in_range(MAX_YEAR as int, 11);
        }
        let d = self.selected_date.add_days(7).unwrap();
        proof {
            lemma_showable_between(d);
        }
        self.selected_date = d;
        self.view_year = d.year;
        self.view_month = d.month;
        Refresh::All
    }

    /// Whether `navigate_back` can move without leaving the showable range.
    pub open spec fn can_navigate_back(self) -> bool {
        match self.view_mode {
            ViewMode::Monthly => month_ok(month_before(self.view_year as int, self.view_month as int).0, month_before(
                self.view_year as int,
                self.view_month as int,
            ).1),
            ViewMode::Weekly => self.selected_date.days() - 7 >= first_navigable_day(),
        }
    }

    /// Whether `navigate_forward` can move without leaving the showable range.
    pub open spec fn can_navigate_forward(self) -> bool {
        match self.view_mode {
            ViewMode::Monthly => month_ok(month_after(self.view_year as int, self.view_month as int).0, month_after(
                self.view_year as int,
                self.view_month as int,
            ).1),
            ViewMode::Weekly => self.selected_date.days() + 7 <= last_navigable_day(),
        }
    }

    /// Navigate backward based on current view mode.
    pub fn navigate_back(&mut self) -> (r: Refresh)
        requires
            old(self).wf(),
            old(self).can_navigate_back(),
        ensures
            final(self).wf(),
            final(self).view_mode == old(self).view_mode,
            old(self).view_mode == ViewMode::Monthly ==> (final(self).view_year as int, final(self).view_month as int) == month_before(old(self).view_year as int, old(self).view_month as int)
                && final(self).selected_date == old(self).selected_date,
            old(self).view_mode == ViewMode::Weekly ==> final(self).selected_date.days() == old(self).selected_date.days() - 7,
            r == Refresh::All,
    {
        match self.view_mode {
            ViewMode::Monthly => self.prev_month(),
            ViewMode::Weekly => self.prev_week(),
        }
    }

    /// Navigate forward based on current view mode.
    pub fn navigate_forward(&mut self) -> (r: Refresh)
        requires
            old(self).wf(),
            old(self).can_navigate_forward(),
        ensures
            final(self).wf(),
            final(self).view_mode == old(self).view_mode,
            old(self).view_mode == ViewMode::Monthly ==> (final(self).view_year as int, final(self).view_month as int) == month_after(old(self).view_year as int, old(self).view_month as int)
                && final(self).selected_date == old(self).selected_date,
            old(self).view_mode == ViewMode::Weekly ==> final(self).selected_date.days() == old(self).selected_date.days() + 7,
            r == Refresh::All,
    {
        match self.view_mode {
            ViewMode::Monthly => self.next_month(),
            ViewMode::Weekly => self.next_week(),
        }
    }

    /// The seven days of the week shown in weekly view.
    pub fn week_dates(&self) -> (r: Vec<Date>)
        requires
            self.wf(),
        ensures
            r@.len() == 7,
            forall|i: int| 0 <= i < 7 ==> (#[trigger] r@[i]).valid() && r@[i].days()
                == self.selected_date.days() - week_offset(self.config.first_day_of_week, self.selected_date) + i,
    {
        proof {
            lemma_month_in_range(self.selected_date.year as int, self.selected_date.month as int);
            crate::date::lemma_day_number_bounds(self.selected_date.year as int, self.selected_date.month as int, self.selected_date.day as int);
        }
        let start = week_start_date(self.selected_date, self.config.first_day_of_week);
        let mut dates: Vec<Date> = Vec::new();
        let mut i: i64 = 0;
        while i < 7
            invariant
                0 <= i <= 7,
                start.valid(),
                start.days() == self.selected_date.days() - week_offset(self.config.first_day_of_week, self.selected_date),
                self.selected_date.days() + 7 <= max_day_number(),
                dates@.len() == i,
                forall|j: int| 0 <= j < i ==> (#[trigger] dates@[j]).valid() && dates@[j].days() == start.days() + j,
            decreases 7 - i,
        {
            dates.push(start.add_days(i).unwrap());
            i = i + 1;
        }
        dates
    }

    /// Replace the events of the selected day, keeping the selection in range.
    pub fn set_selected_day_events(&mut self, events: Vec<Event>)
        requires
            old(self).wf(),
            all_dates_valid(events@),
        ensures
            final(self).wf(),
            final(self).selected_day_events@ == events@,
            final(self).selected_event_index == clamped_selection(old(self).selected_event_index, events@.len() as int),
            *final(self) == (App {
                selected_day_events: final(self).selected_day_events,
                selected_event_index: final(self).selected_event_index,
                ..*old(self)
            }),
    {
        self.selected_day_events = events;
        if let Some(idx) = self.selected_event_index {
            if idx >= self.selected_day_events.len() {
                self.selected_event_index = if self.selected_day_events.len() == 0 {
                    None
                } else {
                    Some(self.selected_day_events.len() - 1)
                };
            }
        }
    }

    /// Open the create modal with the selected date pre-filled.
    pub fn open_create_modal(&mut self)
        requires
            old(self).wf(),
        ensures
            final(self).wf(),
            final(self).modal matches Some(m) && m.mode == ModalMode::Create && m.focused_field == 0
                && m.texts()[1] == ymd_text(old(self).selected_date),
            *final(self) == (App { modal: final(self).modal, ..*old(self) }),
    {
        self.modal = Some(ModalState::new_create(self.selected_date));
    }

    /// Open the edit modal for the selected event.
    /// Returns false if no event is selected or the event is from Google Calendar.
    pub fn open_edit_modal(&mut self) -> (r: bool)
        requires
            old(self).wf(),
            forall|i: int| 0 <= i < old(self).selected_day_events@.len() ==> (#[trigger] old(self).selected_day_events@[i]).date.valid(),
        ensures
            final(self).wf(),
            r <==> (old(self).selected_event_index matches Some(i) && i < old(self).selected_day_events@.len()
                && old(self).selected_day_events@[i as int].source == EventSource::Local),
            r ==> (final(self).modal matches Some(m) && m.mode == ModalMode::Edit && m.event_id == Some(
                old(self).selected_day_events@[old(self).selected_event_index.unwrap() as int].id,
            )),
            !r ==> final(self).modal == old(self).modal,
            *final(self) == (App { modal: final(self).modal, status_message: final(self).status_message, ..*old(self) }),
            !(old(self).selected_event_index matches Some(i) && i < old(self).selected_day_events@.len()
                && old(self).selected_day_events@[i as int].source == EventSource::GoogleCalendar) ==> final(self).status_message
                == old(self).status_message,
            (old(self).selected_event_index matches Some(i) && i < old(self).selected_day_events@.len()
                && old(self).selected_day_events@[i as int].source == EventSource::GoogleCalendar) ==> has_message(final(self).status_message, "Cannot edit Google Calendar events"@),
    {
        let idx = match self.selected_event_index {
            Some(i) => {
                if i < self.selected_day_events.len() {
                    i
                } else {
                    return false;
                }
            },
            None => return false,
        };
        if self.selected_day_events[idx].source == EventSource::GoogleCalendar {
            self.status_message = Some("Cannot edit Google Calendar events".to_owned());
            return false;
        }
        self.modal = Some(ModalState::new_edit(&self.selected_day_events[idx]));
        true
    }

    /// Select the next event in the list.
    pub fn select_next_event(&mut self)
        requires
            old(self).wf(),
        ensures
            final(self).wf(),
            *final(self) == (App {
                selected_event_index: next_selection(old(self).selected_event_index, old(self).selected_day_events@.len() as int),
                ..*old(self)
            }),
    {
        if self.selected_day_events.len() == 0 {
            self.selected_event_index = None;
            return;
        }
        self.selected_event_index = Some(match self.selected_event_index {
            Some(i) => if i < usize::MAX && i + 1 < self.selected_day_events.len() { i + 1 } else { i },
            None => 0,
        });
    }

    /// Select the previous event in the list.
    pub fn select_prev_event(&mut self)
        requires
            old(self).wf(),
        ensures
            final(self).wf(),
            *final(self) == (App {
                selected_event_index: prev_selection(old(self).selected_event_index, old(self).selected_day_events@.len() as int),
                ..*old(self)
            }),
    {
        if self.selected_day_events.len() == 0 {
            self.selected_event_index = None;
            return;
        }
        self.selected_event_index = Some(match self.selected_event_index {
            Some(i) => if i == 0 { 0 } else { i - 1 },
            None => 0,
        });
    }

    /// First step of deleting the selected event: the id to delete, or `None`
    /// with the reason in the status line.
    pub fn begin_delete(&mut self) -> (r: Option<i64>)
        requires
            old(self).wf(),
        ensures
            final(self).wf(),
            *final(self) == (App { status_message: final(self).status_message, ..*old(self) }),
            !(old(self).selected_event_index matches Some(i) && i < old(self).selected_day_events@.len()) ==> r is None
                && has_message(final(self).status_message, "No event selected"@),
            (old(self).selected_event_index matches Some(i) && i < old(self).selected_day_events@.len()) ==> {
                let e = old(self).selected_day_events@[old(self).selected_event_index.unwrap() as int];
                &&& e.source == EventSource::GoogleCalendar ==> r is None && has_message(final(self).status_message, "Cannot delete Google Calendar events"@)
                &&& e.source == EventSource::Local ==> r == Some(e.id) && final(self).status_message == old(self).status_message
            },
    {
        let idx = match self.selected_event_index {
            Some(i) => {
                if i < self.selected_day_events.len() {
                    i
                } else {
                    self.status_message = Some("No event selected".to_owned());
                    return None;
                }
            },
            None => {
                self.status_message = Some("No event selected".to_owned());
                return None;
            },
        };
        if self.selected_day_events[idx].source == EventSource::GoogleCalendar {
            self.status_message = Some("Cannot delete Google Calendar events".to_owned());
            return None;
        }
        Some(self.selected_day_events[idx].id)
    }

    /// Last step of deleting the selected event, given how many stored events
    /// were removed (`None` when the store failed).  Returns whether the event
    /// was deleted; stored data must then be loaded again.
    pub fn finish_delete(&mut self, deleted: Option<usize>) -> (r: bool)
        requires
            old(self).wf(),
            old(self).selected_event_index matches Some(i) && i < old(self).selected_day_events@.len(),
        ensures
            final(self).wf(),
            r <==> (deleted matches Some(n) && n > 0),
            r ==> final(self).selected_event_index == selection_after_delete(
                old(self).selected_event_index,
                old(self).selected_event_index.unwrap() as int,
                old(self).selected_day_events@.len() as int,
            ) && has_message(final(self).status_message, "Event deleted"@),
            !r ==> final(self).selected_event_index == old(self).selected_event_index
                && has_message(final(self).status_message, "Failed to delete event"@),
            *final(self) == (App {
                selected_event_index: final(self).selected_event_index,
                status_message: final(self).status_message,
                ..*old(self)
            }),
    {
        let idx = self.selected_event_index.unwrap();
        match deleted {
            Some(n) => {
                if n > 0 {
                    let len = self.selected_day_events.len();
                    if len <= 1 {
                        self.selected_event_index = None;
                    } else if idx >= len - 1 {
                        self.selected_event_index = Some(len - 2);
                    }
                    self.status_message = Some("Event deleted".to_owned());
                    return true;
                }
            },
            None => {},
        }
        self.status_message = Some("Failed to delete event".to_owned());
        false
    }

    /// Handle the key that answers the delete confirmation.
    /// Returns true when the answer is yes and the selected event should be deleted.
    pub fn delete_confirm_answer(&mut self, key: KeyPress) -> (r: bool)
        requires
            old(self).wf(),
        ensures
            final(self).wf(),
            !final(self).confirm_delete,
            r <==> (key.key == Key::Char('y') || key.key == Key::Char('Y')),
            r ==> final(self).status_message == old(self).status_message,
            !r ==> has_message(final(self).status_message, "Delete cancelled"@),
            *final(self) == (App { confirm_delete: false, status_message: final(self).status_message, ..*old(self) }),
    {
        self.confirm_delete = false;
        match key.key {
            Key::Char(c) => {
                if c == 'y' || c == 'Y' {
                    return true;
                }
            },
            _ => {},
        }
        self.status_message = Some("Delete cancelled".to_owned());
        false
    }

    /// First step of saving the form: the event to store, or `None` with the
    /// form's error message set.
    pub fn begin_save(&mut self) -> (r: Option<SaveRequest>)
        requires
            old(self).wf(),
        ensures
            final(self).wf(),
            old(self).modal is None ==> r is None && final(self).modal is None,
            old(self).modal matches Some(m) ==> {
                &&& form_validation(m.texts()) is Err ==> r is None && (final(self).modal matches Some(n)
                    && n == (ModalState { error_message: n.error_message, ..m })
                    && (n.error_message matches Some(e) && Err::<(), Seq<char>>(e@) == form_validation(m.texts())))
                &&& form_validation(m.texts()) is Ok ==> (r matches Some(q) && final(self).modal == old(self).modal
                    && request_matches(m, q))
                &&& forall|d: Date| d.valid() && m.texts()[1] == #[trigger] ymd_text(d) ==> (r matches Some(q) ==> q.date == d)
            },
            *final(self) == (App { modal: final(self).modal, ..*old(self) }),
    {
        let result = match &self.modal {
            Some(m) => {
                match m.validate() {
                    Err(msg) => Err(msg),
                    Ok(()) => {
                        proof {
                            assert(parsed_date(trimmed(m.texts()[1])) is Some);
                        }
                        match m.to_event_data() {
                            Some(d) => Ok((m.mode, m.event_id, d)),
                            None => Err("Invalid form data".to_owned()),
                        }
                    },
                }
            },
            None => return None,
        };
        match result {
            Err(msg) => {
                let mut m = self.modal.take().unwrap();
                m.error_message = Some(msg);
                self.modal = Some(m);
                None
            },
            Ok((mode, event_id, (title, date, start_time, end_time, description, recurrence))) => {
                Some(SaveRequest { mode, event_id, title, date, start_time, end_time, description, recurrence })
            },
        }
    }

    /// Last step of saving the form, given what storing gave.  Returns whether
    /// it was saved; stored data must then be loaded again.
    pub fn finish_save(&mut self, mode: ModalMode, result: Result<(), String>) -> (r: bool)
        requires
            old(self).wf(),
        ensures
            final(self).wf(),
            r <==> result is Ok,
            r ==> final(self).modal is None && has_message(final(self).status_message, if mode == ModalMode::Create { "Event created"@ } else { "Event updated"@ }),
            result matches Err(e) ==> final(self).status_message == old(self).status_message && (
                old(self).modal is None ==> final(self).modal is None) && (old(self).modal matches Some(m) ==> (final(self).modal matches Some(n)
                    && n == (ModalState { error_message: n.error_message, ..m }) && has_message(n.error_message, "Save failed: "@ + e@))),
            *final(self) == (App { modal: final(self).modal, status_message: final(self).status_message, ..*old(self) }),
    {
        match result {
            Ok(()) => {
                self.modal = None;
                self.status_message = Some(match mode {
                    ModalMode::Create => "Event created".to_owned(),
                    ModalMode::Edit => "Event updated".to_owned(),
                });
                true
            },
            Err(e) => {
                if self.modal.is_some() {
                    let mut m = self.modal.take().unwrap();
                    let mut msg = "Save failed: ".to_owned();
                    msg.append(e.as_str());
                    m.error_message = Some(msg);
                    self.modal = Some(m);
                }
                false
            },
        }
    }

    /// Handle a key event when the modal is active.
    pub fn handle_modal_key(&mut self, key: KeyPress) -> (r: ModalKeyAction)
        requires
            old(self).wf(),
        ensures
            final(self).wf(),
            old(self).modal is None ==> r == ModalKeyAction::NotHandled && final(self).modal is None,
            old(self).modal matches Some(m) ==> {
                &&& (key.key == Key::Enter && m.focused_field != 5) ==> r == ModalKeyAction::Save && final(self).modal == old(self).modal
                &&& !(key.key == Key::Enter && m.focused_field != 5) ==> r == ModalKeyAction::Handled
                &&& key.key == Key::Esc ==> final(self).modal is None
                &&& key.key != Key::Esc && !(key.key == Key::Enter && m.focused_field != 5) ==> (final(self).modal matches Some(n)
                    && n.error_message is None && n.mode == m.mode && n.event_id == m.event_id
                    && modal_key_effect(m, n, key))
            },
            *final(self) == (App { modal: final(self).modal, ..*old(self) }),
    {
        if self.modal.is_none() {
            return ModalKeyAction::NotHandled;
        }
        let mut modal = self.modal.take().unwrap();
        if key.key == Key::Enter && modal.focused_field != 5 {
            self.modal = Some(modal);
            return ModalKeyAction::Save;
        }
        let ghost m = modal;
        modal.error_message = None;
        let f = modal.focused_field;
        match key.key {
            Key::Esc => {
                return ModalKeyAction::Handled;
            },
            Key::Tab => {
                if key.shift {
                    modal.focus_prev();
                } else {
                    modal.focus_next();
                }
            },
            Key::Enter => {
                modal.cycle_recurrence();
            },
            Key::Backspace => {
                let mut field = modal.fields[f].clone_field();
                field.input.delete_backward();
                modal.fields.set(f, field);
            },
            Key::Left => {
                let mut field = modal.fields[f].clone_field();
                field.input.move_cursor_left();
                modal.fields.set(f, field);
            },
            Key::Right => {
                let mut field = modal.fields[f].clone_field();
                field.input.move_cursor_right();
                modal.fields.set(f, field);
            },
            Key::Home => {
                let mut field = modal.fields[f].clone_field();
                field.input.move_cursor_home();
                modal.fields.set(f, field);
            },
            Key::End => {
                let mut field = modal.fields[f].clone_field();
                field.input.move_cursor_end();
                modal.fields.set(f, field);
            },
            Key::Char(c) => {
                if c == ' ' && f == 5 {
                    modal.cycle_recurrence();
                } else {
                    let mut field = modal.fields[f].clone_field();
                    field.input.insert_char(c);
                    modal.fields.set(f, field);
                }
            },
            Key::Up | Key::Down | Key::Other => {},
        }
        proof {
            assert forall|i: int| 0 <= i < 6 implies (#[trigger] modal.fields@[i]).input.wf() by {
                assert(m.fields@[i].input.wf());
            }
        }
        self.modal = Some(modal);
        ModalKeyAction::Handled
    }

    /// At most one overlay is open: the form, the delete question, the command
    /// palette or the event details.
    pub open spec fn overlays_exclusive(self) -> bool {
        (if self.modal is Some { 1int } else { 0int }) + (if self.confirm_delete { 1int } else { 0int }) + (if self.command_palette_open {
            1int
        } else {
            0int
        }) + (if self.event_detail is Some { 1int } else { 0int }) <= 1
    }

    /// No overlay is open.
    pub open spec fn no_overlay(self) -> bool {
        self.modal is None && !self.confirm_delete && !self.command_palette_open && self.event_detail is None
    }

    /// Switch the focus to panel `n` (1, 2 or 3); other numbers change nothing.
    pub fn focus_panel(&mut self, n: u32)
        requires
            old(self).wf(),
        ensures
            final(self).wf(),
            *final(self) == (App { focused_panel: panel_for(n, old(self).focused_panel), ..*old(self) }),
    {
        if n == 1 {
            self.focused_panel = FocusedPanel::Calendar;
        } else if n == 2 {
            self.focused_panel = FocusedPanel::EventList;
        } else if n == 3 {
            self.focused_panel = FocusedPanel::Upcoming;
        }
    }

    /// Move the focus to the next panel: calendar, events, upcoming, calendar.
    pub fn cycle_focus(&mut self)
        requires
            old(self).wf(),
        ensures
            final(self).wf(),
            *final(self) == (App { focused_panel: next_panel(old(self).focused_panel), ..*old(self) }),
    {
        self.focused_panel = match self.focused_panel {
            FocusedPanel::Calendar => FocusedPanel::EventList,
            FocusedPanel::EventList => FocusedPanel::Upcoming,
            FocusedPanel::Upcoming => FocusedPanel::Calendar,
        };
    }

    /// Handle a key while the command palette is open: Esc, Ctrl+P and q close
    /// it; every key is taken.
    pub fn handle_command_palette_key(&mut self, key: KeyPress) -> (r: bool)
        requires
            old(self).wf(),
        ensures
            final(self).wf(),
            r,
            *final(self) == (App {
                command_palette_open: if closes_palette(key) { false } else { old(self).command_palette_open },
                ..*old(self)
            }),
    {
        let closes = match key.key {
            Key::Esc => true,
            Key::Char(c) => (c == 'p' && key.ctrl) || c == 'q',
            _ => false,
        };
        if closes {
            self.command_palette_open = false;
        }
        true
    }

    /// Handle a key while the event details are shown: Esc and Enter close
    /// them; every key is taken.
    pub fn handle_event_detail_key(&mut self, key: KeyPress) -> (r: bool)
        requires
            old(self).wf(),
        ensures
            final(self).wf(),
            r,
            *final(self) == (App {
                event_detail: if closes_detail(key) { None } else { old(self).event_detail },
                ..*old(self)
            }),
    {
        match key.key {
            Key::Esc | Key::Enter => {
                self.event_detail = None;
            },
            _ => {},
        }
        true
    }

    /// The event whose details Enter shows: the selected event of the focused
    /// list, if any.
    pub open spec fn detail_for(self) -> Option<Event> {
        match self.focused_panel {
            FocusedPanel::EventList => match self.selected_event_index {
                Some(i) => if i < self.selected_day_events@.len() { Some(self.selected_day_events@[i as int]) } else { None },
                None => None,
            },
            FocusedPanel::Upcoming => match self.selected_upcoming_index {
                Some(i) => if i < self.upcoming_events@.len() { Some(self.upcoming_events@[i as int]) } else { None },
                None => None,
            },
            FocusedPanel::Calendar => None,
        }
    }

    /// Show the details of the selected event of the focused list, if any.
    pub fn open_event_detail(&mut self)
        requires
            old(self).wf(),
        ensures
            final(self).wf(),
            *final(self) == (App { event_detail: old(self).detail_for(), ..*old(self) }),
    {
        let detail = match self.focused_panel {
            FocusedPanel::EventList => match self.selected_event_index {
                Some(i) => if i < self.selected_day_events.len() {
                    let e = &self.selected_day_events[i];
                    Some(e.with_date(e.date))
                } else {
                    None
                },
                None => None,
            },
            FocusedPanel::Upcoming => match self.selected_upcoming_index {
                Some(i) => if i < self.upcoming_events.len() {
                    let e = &self.upcoming_events[i];
                    Some(e.with_date(e.date))
                } else {
                    None
                },
                None => None,
            },
            FocusedPanel::Calendar => None,
        };
        self.event_detail = detail;
    }

    /// Select the next upcoming event.
    pub fn select_next_upcoming(&mut self)
        requires
            old(self).wf(),
        ensures
            final(self).wf(),
            *final(self) == (App {
                selected_upcoming_index: next_selection(old(self).selected_upcoming_index, old(self).upcoming_events@.len() as int),
                ..*old(self)
            }),
    {
        if self.upcoming_events.len() == 0 {
            self.selected_upcoming_index = None;
            return;
        }
        self.selected_upcoming_index = Some(match self.selected_upcoming_index {
            Some(i) => if i < usize::MAX && i + 1 < self.upcoming_events.len() { i + 1 } else { i },
            None => 0,
        });
    }

    /// Select the previous upcoming event.
    pub fn select_prev_upcoming(&mut self)
        requires
            old(self).wf(),
        ensures
            final(self).wf(),
            *final(self) == (App {
                selected_upcoming_index: prev_selection(old(self).selected_upcoming_index, old(self).upcoming_events@.len() as int),
                ..*old(self)
            }),
    {
        if self.upcoming_events.len() == 0 {
            self.selected_upcoming_index = None;
            return;
        }
        self.selected_upcoming_index = Some(match self.selected_upcoming_index {
            Some(i) => if i == 0 { 0 } else { i - 1 },
            None => 0,
        });
    }

    /// The bounds of navigation, as day numbers.
    fn navigable_days() -> (r: (i32, i32))
        ensures
            r.0 == first_navigable_day(),
            r.1 == last_navigable_day(),
    {
        proof {
            lemma_month_in_range(MIN_YEAR as int, 2);
            lemma_month_in_range(MAX_YEAR as int, 11);
            crate::date::lemma_day_number_bounds(MIN_YEAR as int, 2, 1);
            crate::date::lemma_day_number_bounds(MAX_YEAR as int, 11, 30);
        }
        let first = Date { year: MIN_YEAR, month: 2, day: 1 };
        let last = Date { year: MAX_YEAR, month: 11, day: 30 };
        (first.num_days_from_ce(), last.num_days_from_ce())
    }

    /// Move the selected day by one in the calendar panel.
    fn step_day(&mut self, forward: bool) -> (r: Outcome)
        requires
            old(self).wf(),
        ensures
            final(self).wf(),
            moves_day(*old(self), *final(self), if forward { 1int } else { -1int }, r),
    {
        if self.focused_panel != FocusedPanel::Calendar {
            return Outcome::Done;
        }
        let (first, last) = App::navigable_days();
        proof {
            crate::date::lemma_day_number_bounds(self.selected_date.year as int, self.selected_date.month as int, self.selected_date.day as int);
        }
        let today = self.selected_date.num_days_from_ce();
        if forward {
            if today >= last {
                return Outcome::Done;
            }
            Outcome::Reload(self.next_day())
        } else {
            if today <= first {
                return Outcome::Done;
            }
            Outcome::Reload(self.prev_day())
        }
    }

    /// Move down or up: by a week in the calendar panel, through the focused list otherwise.
    fn step_vertically(&mut self, down: bool) -> (r: Outcome)
        requires
            old(self).wf(),
        ensures
            final(self).wf(),
            moves_vertically(*old(self), *final(self), down, r),
    {
        match self.focused_panel {
            FocusedPanel::Calendar => {
                let (first, last) = App::navigable_days();
                proof {
                    crate::date::lemma_day_number_bounds(self.selected_date.year as int, self.selected_date.month as int, self.selected_date.day as int);
                }
                let today = self.selected_date.num_days_from_ce();
                if down {
                    if today > last - 7 {
                        return Outcome::Done;
                    }
                    Outcome::Reload(self.next_week())
                } else {
                    if today < first + 7 {
                        return Outcome::Done;
                    }
                    Outcome::Reload(self.prev_week())
                }
            },
            FocusedPanel::EventList => {
                if down {
                    self.select_next_event();
                } else {
                    self.select_prev_event();
                }
                Outcome::Done
            },
            FocusedPanel::Upcoming => {
                if down {
                    self.select_next_upcoming();
                } else {
                    self.select_prev_upcoming();
                }
                Outcome::Done
            },
        }
    }

    /// Handle a key when no overlay is open: the commands listed by the
    /// command palette.
    pub fn handle_normal_key(&mut self, key: KeyPress) -> (r: Outcome)
        requires
            old(self).wf(),
            old(self).no_overlay(),
        ensures
            final(self).wf(),
            final(self).overlays_exclusive(),
            normal_key_effect(*old(self), *final(self), key, r),
    {
        match key.key {
            Key::Char(c) => {
                if key.ctrl {
                    if c == 'p' {
                        self.command_palette_open = true;
                    }
                    Outcome::Done
                } else if c == '1' {
                    self.focus_panel(1);
                    Outcome::Done
                } else if c == '2' {
                    self.focus_panel(2);
                    Outcome::Done
                } else if c == '3' {
                    self.focus_panel(3);
                    Outcome::Done
                } else if c == 'q' {
                    self.quit();
                    Outcome::Done
                } else if c == 'n' {
                    self.open_create_modal();
                    Outcome::Done
                } else if c == 'e' {
                    self.open_edit_modal();
                    Outcome::Done
                } else if c == 'd' {
                    self.confirm_delete = true;
                    Outcome::Done
                } else if c == 'v' {
                    Outcome::Reload(self.toggle_view())
                } else if c == 't' {
                    Outcome::Reload(self.go_to_today())
                } else if c == 'h' {
                    self.step_day(false)
                } else if c == 'l' {
                    self.step_day(true)
                } else if c == 'k' {
                    self.step_vertically(false)
                } else if c == 'j' {
                    self.step_vertically(true)
                } else {
                    Outcome::Done
                }
            },
            Key::Left => self.step_day(false),
            Key::Right => self.step_day(true),
            Key::Up => self.step_vertically(false),
            Key::Down => self.step_vertically(true),
            Key::Tab => {
                self.cycle_focus();
                Outcome::Done
            },
            Key::Enter => {
                self.open_event_detail();
                Outcome::Done
            },
            _ => Outcome::Done,
        }
    }

    /// Handle a key: the open overlay takes it (the form, then the delete
    /// question, then the command palette, then the event details); with none
    /// open, it is a command.
    pub fn handle_key(&mut self, key: KeyPress) -> (r: Outcome)
        requires
            old(self).wf(),
            old(self).overlays_exclusive(),
        ensures
            final(self).wf(),
            final(self).overlays_exclusive(),
            old(self).modal matches Some(m) ==> {
                &&& !final(self).confirm_delete && !final(self).command_palette_open && final(self).event_detail is None
                &&& *final(self) == (App { modal: final(self).modal, ..*old(self) })
                &&& (key.key == Key::Enter && m.focused_field != 5) ==> (r is Save <==> form_validation(m.texts()) is Ok)
                &&& r matches Outcome::Save(q) ==> request_matches(m, q) && final(self).modal == old(self).modal
                &&& !(key.key == Key::Enter && m.focused_field != 5) ==> r is Done
                &&& key.key == Key::Esc ==> final(self).modal is None
                &&& (key.key != Key::Esc && !(key.key == Key::Enter && m.focused_field != 5)) ==> (final(self).modal matches Some(n)
                    && n.error_message is None && n.mode == m.mode && n.event_id == m.event_id && modal_key_effect(m, n, key))
                &&& form_validation(m.texts()) is Err && key.key == Key::Enter && m.focused_field != 5 ==> (final(self).modal matches Some(
                    n) && n == (ModalState { error_message: n.error_message, ..m }))
            },
            (old(self).modal is None && old(self).confirm_delete) ==> {
                let yes = key.key == Key::Char('y') || key.key == Key::Char('Y');
                &&& !final(self).confirm_delete
                &&& final(self).modal is None && !final(self).command_palette_open && final(self).event_detail is None
                &&& final(self).selected_event_index == old(self).selected_event_index
                &&& final(self).selected_day_events == old(self).selected_day_events
                &&& (yes && deletable(*old(self)) is Some) ==> r == Outcome::Delete(deletable(*old(self)).unwrap())
                &&& !(yes && deletable(*old(self)) is Some) ==> r is Done
                &&& !yes ==> has_message(final(self).status_message, "Delete cancelled"@)
            },
            (old(self).modal is None && !old(self).confirm_delete && old(self).command_palette_open) ==> r is Done
                && *final(self) == (App { command_palette_open: !closes_palette(key), ..*old(self) }),
            (old(self).modal is None && !old(self).confirm_delete && !old(self).command_palette_open && old(self).event_detail is Some)
                ==> r is Done && *final(self) == (App {
                event_detail: if closes_detail(key) { None } else { old(self).event_detail },
                ..*old(self)
            }),
            old(self).no_overlay() ==> normal_key_effect(*old(self), *final(self), key, r),
    {
        if self.modal.is_some() {
            let ghost m = self.modal.unwrap();
            return match self.handle_modal_key(key) {
                ModalKeyAction::Save => {
                    match self.begin_save() {
                        Some(q) => Outcome::Save(q),
                        None => Outcome::Done,
                    }
                },
                _ => Outcome::Done,
            };
        }
        if self.confirm_delete {
            if self.delete_confirm_answer(key) {
                return match self.begin_delete() {
                    Some(id) => Outcome::Delete(id),
                    None => Outcome::Done,
                };
            }
            return Outcome::Done;
        }
        if self.command_palette_open {
            self.handle_command_palette_key(key);
            return Outcome::Done;
        }
        if self.event_detail.is_some() {
            self.handle_event_detail_key(key);
            return Outcome::Done;
        }
        self.handle_normal_key(key)
    }

    /// A left click at `(x, y)`, with the panels laid out as `rects`.  The
    /// command palette and the event details are dismissed by any click; in
    /// the form, a click on a field (`modal_field`, measured by the front end
    /// on the form's area) focuses it; with no overlay open, the click
    /// focuses the panel under it and selects what it falls on.
    pub fn handle_click(&mut self, x: u16, y: u16, rects: LayoutRects, modal_field: Option<usize>) -> (r: Outcome)
        requires
            old(self).wf(),
            old(self).overlays_exclusive(),
        ensures
            final(self).wf(),
            final(self).overlays_exclusive(),
            (old(self).command_palette_open || old(self).event_detail is Some) ==> r is Done && *final(self) == (App {
                command_palette_open: false,
                event_detail: None,
                ..*old(self)
            }),
            (old(self).modal is Some && !old(self).command_palette_open && old(self).event_detail is None) ==> r is Done
                && *final(self) == (App { modal: Some(focus_clicked(old(self).modal.unwrap(), modal_field)), ..*old(self) }),
            (old(self).confirm_delete && !old(self).command_palette_open && old(self).event_detail is None) ==> r is Done
                && *final(self) == *old(self),
            old(self).no_overlay() ==> click_effect(*old(self), *final(self), x as int, y as int, rects, r),
    {
        if self.command_palette_open || self.event_detail.is_some() {
            self.command_palette_open = false;
            self.event_detail = None;
            return Outcome::Done;
        }
        if self.modal.is_some() {
            match modal_field {
                Some(i) => {
                    if i < 6 {
                        let mut m = self.modal.take().unwrap();
                        m.focused_field = i;
                        self.modal = Some(m);
                    }
                },
                None => {},
            }
            return Outcome::Done;
        }
        if self.confirm_delete {
            return Outcome::Done;
        }
        let cal = rects.calendar;
        if x >= cal.x && (x as u32) < cal.x as u32 + cal.width as u32 && y >= cal.y && (y as u32) < cal.y as u32 + cal.height as u32 {
            self.focused_panel = FocusedPanel::Calendar;
            let hit = match self.view_mode {
                ViewMode::Monthly => hit_test_monthly(x, y, cal, self),
                ViewMode::Weekly => {
                    if cal.height <= 253 {
                        match hit_test_weekly(x, y, cal, self) {
                            Some((d, _)) => Some(d),
                            None => None,
                        }
                    } else {
                        None
                    }
                },
            };
            return match hit {
                Some(d) => {
                    let (first, last) = App::navigable_days();
                    proof {
                        crate::date::lemma_day_number_bounds(d.year as int, d.month as int, d.day as int);
                    }
                    let n = d.num_days_from_ce();
                    if n < first || n > last {
                        return Outcome::Done;
                    }
                    proof {
                        lemma_showable_between(d);
                    }
                    Outcome::Reload(self.select_date(d))
                },
                None => Outcome::Done,
            };
        }
        let list = rects.event_list;
        if x >= list.x && (x as u32) < list.x as u32 + list.width as u32 && y >= list.y && (y as u32) < list.y as u32 + list.height as u32 {
            self.focused_panel = FocusedPanel::EventList;
            match hit_test_event_list(y, list, self.selected_day_events.len()) {
                Some(i) => {
                    self.selected_event_index = Some(i);
                },
                None => {},
            }
            return Outcome::Done;
        }
        let up = rects.upcoming;
        if x >= up.x && (x as u32) < up.x as u32 + up.width as u32 && y >= up.y && (y as u32) < up.y as u32 + up.height as u32 {
            self.focused_panel = FocusedPanel::Upcoming;
            match hit_test_event_list(y, up, self.upcoming_events.len()) {
                Some(i) => {
                    self.selected_upcoming_index = Some(i);
                },
                None => {},
            }
            return Outcome::Done;
        }
        Outcome::Done
    }

    /// The days that have events, each counted once, as the monthly view
    /// marks them.
    pub fn event_counts(&self) -> (r: DayMap<usize>)
        requires
            self.wf(),
        ensures
            r.wf(),
            forall|d: Date| #![trigger r.has(d)] r.has(d) <==> self.event_dates@.contains(d),
            forall|d: Date| r.has(d) ==> #[trigger] r.value_at(d) == 1,
    {
        let mut counts: DayMap<usize> = DayMap::new();
        let mut i: usize = 0;
        while i < self.event_dates.len()
            invariant
                i <= self.event_dates@.len(),
                self.wf(),
                counts.wf(),
                forall|d: Date| #![trigger counts.has(d)] counts.has(d) <==> self.event_dates@.take(i as int).contains(d),
                forall|d: Date| counts.has(d) ==> #[trigger] counts.value_at(d) == 1,
            decreases self.event_dates@.len() - i,
        {
            let d = self.event_dates[i];
            counts.insert(d, 1);
            proof {
                broadcast use vstd::seq_lib::group_seq_properties;
                assert(self.event_dates@.take(i + 1) =~= self.event_dates@.take(i as int).push(d));
            }
            i = i + 1;
        }
        proof {
            assert(self.event_dates@.take(self.event_dates@.len() as int) =~= self.event_dates@);
        }
        counts
    }

    /// Quit the application.
    pub fn quit(&mut self)
        ensures
            *final(self) == (App { running: false, ..*old(self) }),
    {
        self.running = false;
    }
}

/// What a key other than Esc or a saving Enter does to an open form `m`,
/// giving `n`: fields other than the focused one keep their contents.
pub open spec fn modal_key_effect(m: ModalState, n: ModalState, key: KeyPress) -> bool {
    let f = m.focused_field as int;
    let unchanged_others = forall|i: int| 0 <= i < 6 && i != f ==> (#[trigger] n.fields@[i]) == m.fields@[i];
    let edited = |e: crate::ui::text_input::EditState| n.focused_field == m.focused_field && unchanged_others
        && n.fields@[f].label == m.fields@[f].label && n.fields@[f].input@ == e && n.fields@[f].input.max_length
        == m.fields@[f].input.max_length;
    let next = next_recurrence_label(trimmed(m.texts()[5]));
    let cycled = n.focused_field == m.focused_field && (forall|i: int| 0 <= i < 6 && i != 5 ==> (#[trigger] n.fields@[i])
        == m.fields@[i]) && n.fields@[5].label == m.fields@[5].label && n.fields@[5].input@ == (next, next.len() as int)
        && n.fields@[5].input.max_length == 10;
    match key.key {
        Key::Tab => n.fields == m.fields && n.focused_field == (if key.shift {
            if f == 0 { 5 } else { (f - 1) as usize }
        } else {
            ((f + 1) % 6) as usize
        }),
        Key::Enter => cycled,
        Key::Backspace => edited(crate::ui::text_input::edit_delete_backward(m.fields@[f].input@)),
        Key::Left => edited(crate::ui::text_input::edit_left(m.fields@[f].input@)),
        Key::Right => edited(crate::ui::text_input::edit_right(m.fields@[f].input@)),
        Key::Home => edited((m.fields@[f].input@.0, 0int)),
        Key::End => edited((m.fields@[f].input@.0, m.fields@[f].input@.0.len() as int)),
        Key::Char(c) => if c == ' ' && f == 5 {
            cycled
        } else if m.fields@[f].input.byte_length() < m.fields@[f].input.max_length {
            edited(crate::ui::text_input::edit_insert(m.fields@[f].input@, c))
        } else {
            edited(m.fields@[f].input@)
        },
        _ => n.fields == m.fields && n.focused_field == m.focused_field,
    }
}

impl FormField {
    /// A copy of this field.
    pub fn clone_field(&self) -> (r: FormField)
        ensures
            r == *self,
    {
        FormField {
            label: self.label,
            input: TextInput {
                buffer: self.input.buffer.clone(),
                cursor_pos: self.input.cursor_pos,
                max_length: self.input.max_length,
            },
        }
    }
}

/// A date between the first and the last navigable days is showable.
proof fn lemma_showable_between(d: Date)
    requires
        d.valid(),
        first_navigable_day() <= d.days() <= last_navigable_day(),
    ensures
        showable(d),
{
}

/// A time that reads as `HH:MM` is a time of day: at least one character,
/// hours below 24 and minutes below 60.
proof fn lemma_parsed_time_in_range(s: Seq<char>, h: u32, m: u32)
    requires
        time_parse(s) == Ok::<(u32, u32), Seq<char>>((h, m)),
    ensures
        s.len() > 0,
        h < 24,
        m < 60,
{
    if !(exists|i: int| single_colon_at(s, i)) {
        assert(time_parse(s) is Err);
    }
    let i = choose|i: int| single_colon_at(s, i);
    assert(0 <= i < s.len());
}

/// A number below 100 written with two digits reads back as that number.
proof fn lemma_two_digits_read_back(n: u32)
    requires
        n < 100,
    ensures
        crate::gcal::two_digits(n) =~= seq![crate::date::digit_char((n / 10) as int), crate::date::digit_char((n % 10) as int)],
        parsed_u32(crate::gcal::two_digits(n)) == Some(n),
{
    let t = crate::gcal::two_digits(n);
    if n < 10 {
        assert(crate::date::decimal(n as nat) == seq![crate::date::digit_char(n as int)]);
        reveal_with_fuel(crate::date::zero_pad, 2);
        assert(t =~= seq!['0'] + seq![crate::date::digit_char(n as int)]);
    } else {
        assert(crate::date::decimal((n / 10) as nat) == seq![crate::date::digit_char((n / 10) as int)]);
        assert(crate::date::decimal(n as nat) == crate::date::decimal((n / 10) as nat).push(
            crate::date::digit_char((n % 10) as int),
        ));
    }
    let a = crate::date::digit_char((n / 10) as int);
    let b = crate::date::digit_char((n % 10) as int);
    assert(t =~= seq![a, b]);
    assert(crate::text::without_plus_sign(t) == t);
    assert(t.drop_last() =~= seq![a]);
    assert(t.drop_last().drop_last() =~= Seq::<char>::empty());
    assert(a as int == 48 + n / 10);
    assert(b as int == 48 + n % 10);
    assert(t.drop_last().last() == a);
    assert(crate::text::digits_value(t.drop_last()) == crate::text::digits_value(t.drop_last().drop_last()) * 10 + (a as int
        - '0' as int));
    assert(crate::text::digits_value(t.drop_last()) == (n / 10) as int);
    assert(crate::text::digits_value(t) == n as int);
}

/// Every time of day written `HH:MM` reads back as that hour and minute:
/// no valid time is refused.
pub proof fn law_written_times_read_back(h: u32, m: u32)
    requires
        h < 24,
        m < 60,
    ensures
        time_parse(crate::gcal::hm_text(h, m)) == Ok::<(u32, u32), Seq<char>>((h, m)),
{
    lemma_two_digits_read_back(h);
    lemma_two_digits_read_back(m);
    let s = crate::gcal::hm_text(h, m);
    assert(s =~= crate::gcal::two_digits(h) + seq![':'] + crate::gcal::two_digits(m));
    assert(s.len() == 5);
    assert(single_colon_at(s, 2));
    let i = choose|i: int| single_colon_at(s, i);
    assert(i == 2) by {
        if i != 2 {
            assert(s[2] != ':');
        }
    }
    assert(s.take(2) =~= crate::gcal::two_digits(h));
    assert(s.skip(3) =~= crate::gcal::two_digits(m));
}

/// A form with a title and a date whose start and end both read as `HH:MM`
/// is refused for its times exactly when the end falls earlier in the day
/// than the start, counting minutes since midnight: start 09:30 with end
/// 09:15 is refused, equal times are accepted.
pub proof fn law_end_before_start_is_refused(f: Seq<Seq<char>>, h1: u32, m1: u32, h2: u32, m2: u32)
    requires
        trimmed(f[0]).len() > 0,
        parsed_date(trimmed(f[1])) is Some,
        time_parse(trimmed(f[2])) == Ok::<(u32, u32), Seq<char>>((h1, m1)),
        time_parse(trimmed(f[3])) == Ok::<(u32, u32), Seq<char>>((h2, m2)),
    ensures
        form_validation(f) == (if 60 * h2 + m2 < 60 * h1 + m1 {
            Err::<(), Seq<char>>(msg_end_before_start())
        } else {
            Ok::<(), Seq<char>>(())
        }),
{
    lemma_parsed_time_in_range(trimmed(f[2]), h1, m1);
    lemma_parsed_time_in_range(trimmed(f[3]), h2, m2);
}

/// Going one month forward and then one back, or back and then forward,
/// returns to the same month.
pub proof fn law_month_steps_undo(y: int, m: int)
    requires
        1 <= m <= 12,
    ensures
        month_before(month_after(y, m).0, month_after(y, m).1) == (y, m),
        month_after(month_before(y, m).0, month_before(y, m).1) == (y, m),
{
}

/// Pressing `v` twice with no overlay open returns to the same view: the
/// second press undoes the first, and each press asks for a full reload.
pub proof fn law_toggle_view_twice(a: App, b: App, c: App, key: KeyPress, r1: Outcome, r2: Outcome)
    requires
        key.key == Key::Char('v'),
        !key.ctrl,
        normal_key_effect(a, b, key, r1),
        normal_key_effect(b, c, key, r2),
    ensures
        c == a,
        r1 == Outcome::Reload(Refresh::All),
        r2 == Outcome::Reload(Refresh::All),
{
}

/// Opening the command palette with Ctrl+P and closing it with Esc leaves
/// the application as it was.
pub proof fn law_palette_open_close(a: App, b: App, c: App, open: KeyPress, close: KeyPress, r: Outcome)
    requires
        a.no_overlay(),
        open.key == Key::Char('p'),
        open.ctrl,
        close.key == Key::Esc,
        normal_key_effect(a, b, open, r),
        c == (App { command_palette_open: !closes_palette(close), ..b }),
    ensures
        b.command_palette_open,
        c == a,
{
}

/// Moving the focus forward and then back returns to the same field.
pub proof fn law_focus_prev_undoes_focus_next(n: int, f: int)
    requires
        0 <= f < n,
    ensures
        ({
            let g = (f + 1) % n;
            (if g == 0 { n - 1 } else { g - 1 }) == f
        }),
{
    if f + 1 < n {
        vstd::arithmetic::div_mod::lemma_small_mod((f + 1) as nat, n as nat);
    } else {
        vstd::arithmetic::div_mod::lemma_mod_self_0(n);
    }
}

/// Cycling the recurrence field walks none, daily, weekly, monthly and back to none.
pub proof fn law_recurrence_cycle_returns()
    ensures
        next_recurrence_label(next_recurrence_label(next_recurrence_label(next_recurrence_label("none"@))))
            == "none"@,
        recurrence_from_label(next_recurrence_label("none"@)) == Recurrence::Daily,
        recurrence_from_label(next_recurrence_label("daily"@)) == Recurrence::Weekly,
        recurrence_from_label(next_recurrence_label("weekly"@)) == Recurrence::Monthly,
        recurrence_from_label(next_recurrence_label("monthly"@)) == Recurrence::Never,
{
    reveal_strlit("none");
    reveal_strlit("daily");
    reveal_strlit("weekly");
    reveal_strlit("monthly");
    assert("none"@.len() == 4 && "daily"@.len() == 5 && "weekly"@.len() == 6 && "monthly"@.len() == 7);
}

} // verus!
