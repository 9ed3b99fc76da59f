//! The event list panel: what it draws and hit testing.

use vstd::prelude::*;
use crate::config::Config;
use crate::events::{Event, EventSource};
use crate::ui::layout::{Rect, inside_border};
use crate::ui::paint::{Piece, Tone};

verus! {

/// Hit-test an event list: the index of the event on row `y`, if any.
pub fn hit_test_event_list(y: u16, rect: Rect, event_count: usize) -> (r: Option<usize>)
    ensures
        ({
            let inner = inside_border(rect);
            r == (if inner.height < 1 || event_count == 0 || y < inner.y || y >= inner.y + inner.height
                || y - inner.y >= event_count {
                None::<usize>
            } else {
                Some((y - inner.y) as usize)
            })
        }),
{
    let inner = rect.bordered_inner();
    if inner.height < 1 || event_count == 0 {
        return None;
    }
    if y < inner.y || y as u32 >= inner.y as u32 + inner.height as u32 {
        return None;
    }
    let idx = (y - inner.y) as usize;
    if idx < event_count {
        Some(idx)
    } else {
        None
    }
}

/// The time shown before an event's title: `start-end `, `start ` or nothing.
pub open spec fn time_label(start: Option<String>, end: Option<String>) -> Seq<char> {
    match (start, end) {
        (Some(s), Some(e)) => s@ + seq!['-'] + e@ + seq![' '],
        (Some(s), None) => s@ + seq![' '],
        _ => Seq::empty(),
    }
}

/// Writes the time shown before an event's title.
pub fn time_label_text(start: &Option<String>, end: &Option<String>) -> (r: String)
    ensures
        r@ == time_label(*start, *end),
{
    let mut t = String::new();
    match start {
        Some(s) => {
            t.append(s.as_str());
            match end {
                Some(e) => {
                    crate::text::string_push(&mut t, '-');
                    t.append(e.as_str());
                },
                None => {},
            }
            crate::text::string_push(&mut t, ' ');
        },
        None => {},
    }
    proof {
        assert(t@ =~= time_label(*start, *end));
    }
    t
}

/// `p` is the piece `text` in tone `tone`.
pub open spec fn piece_is(p: Piece, text: Seq<char>, tone: Tone) -> bool {
    p.text@ == text && p.tone == tone
}

/// The line of the event list for event `e`, selected or not.
pub open spec fn event_line_ok(line: Seq<Piece>, e: Event, selected: bool) -> bool {
    &&& line.len() == 3
    &&& piece_is(line[0], time_label(e.start_time, e.end_time), if selected { Tone::AccentBold } else { Tone::Accent })
    &&& piece_is(line[1], e.title@, if selected { Tone::AccentBoldOnReset } else { Tone::Plain })
    &&& piece_is(line[2], if e.source == EventSource::GoogleCalendar { " [gcal]"@ } else { Seq::empty() }, Tone::Muted)
}

/// Event list panel showing events for the selected day.
pub struct EventListWidget<'a> {
    pub events: &'a Vec<Event>,
    pub selected_date_label: String,
    pub config: &'a Config,
    pub selected_index: Option<usize>,
    pub focused: bool,
}

impl<'a> EventListWidget<'a> {
    pub fn new(events: &'a Vec<Event>, selected_date_label: String, config: &'a Config) -> (r: Self)
        ensures
            r.events == events,
            r.selected_date_label == selected_date_label,
            r.config == config,
            r.selected_index is None,
            !r.focused,
    {
        EventListWidget { events, selected_date_label, config, selected_index: None, focused: false }
    }

    pub fn with_selected_index(self, index: Option<usize>) -> (r: Self)
        ensures
            r.selected_index == index,
            r.events == self.events,
            r.selected_date_label == self.selected_date_label,
            r.config == self.config,
            r.focused == self.focused,
    {
        EventListWidget { selected_index: index, ..self }
    }

    pub fn with_focused(self, focused: bool) -> (r: Self)
        ensures
            r.focused == focused,
            r.events == self.events,
            r.selected_date_label == self.selected_date_label,
            r.config == self.config,
            r.selected_index == self.selected_index,
    {
        EventListWidget { focused, ..self }
    }

    /// The panel's title.
    pub fn title(&self) -> (r: &'static str)
        ensures
            r@ == " [2]-Events "@,
    {
        " [2]-Events "
    }

    /// The tone of the border: the accent when focused.
    pub fn border_tone(&self) -> (r: Tone)
        ensures
            r == (if self.focused { Tone::Accent } else { Tone::Muted }),
    {
        if self.focused { Tone::Accent } else { Tone::Muted }
    }

    /// The lines of the list: one per event, or a notice when there are none.
    pub fn lines(&self) -> (r: Vec<Vec<Piece>>)
        ensures
            self.events@.len() == 0 ==> r@.len() == 2 && r@[0]@.len() == 1 && piece_is(r@[0]@[0], Seq::empty(), Tone::Plain)
                && r@[1]@.len() == 1 && piece_is(r@[1]@[0], "  No events for this day"@, Tone::Muted),
            self.events@.len() > 0 ==> r@.len() == self.events@.len() && forall|i: int| 0 <= i < r@.len() ==> event_line_ok(
                (#[trigger] r@[i])@,
                self.events@[i],
                self.selected_index == Some(i as usize),
            ),
    {
        let mut out: Vec<Vec<Piece>> = Vec::new();
        if self.events.len() == 0 {
            out.push(vec![Piece { text: String::new(), tone: Tone::Plain }]);
            out.push(vec![Piece { text: "  No events for this day".to_owned(), tone: Tone::Muted }]);
            return out;
        }
        let mut i: usize = 0;
        while i < self.events.len()
            invariant
                i <= self.events@.len(),
                out@.len() == i,
                forall|j: int| 0 <= j < i ==> event_line_ok((#[trigger] out@[j])@, self.events@[j], self.selected_index == Some(j as usize)),
            decreases self.events@.len() - i,
        {
            let e = &self.events[i];
            let selected = match self.selected_index {
                Some(s) => s == i,
                None => false,
            };
            let time = time_label_text(&e.start_time, &e.end_time);
            let marker = if e.source == EventSource::GoogleCalendar { " [gcal]".to_owned() } else { String::new() };
            let line = vec![
                Piece { text: time, tone: if selected { Tone::AccentBold } else { Tone::Accent } },
                Piece { text: e.title.clone(), tone: if selected { Tone::AccentBoldOnReset } else { Tone::Plain } },
                Piece { text: marker, tone: Tone::Muted },
            ];
            out.push(line);
            i = i + 1;
        }
        out
    }
}

} // verus!
