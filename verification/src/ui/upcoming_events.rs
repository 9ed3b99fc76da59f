//! The upcoming events panel: what it draws.

use vstd::prelude::*;
use crate::config::Config;
use crate::date::short_padded_text;
use crate::events::Event;
use crate::ui::event_list::{piece_is, time_label, time_label_text};
use crate::ui::paint::{Piece, Tone};

verus! {

/// The line of the upcoming list for event `e`: its date, its time and its title.
pub open spec fn upcoming_line_ok(line: Seq<Piece>, e: Event) -> bool {
    &&& line.len() == 3
    &&& piece_is(line[0], short_padded_text(e.date) + seq![' '], Tone::ThemeMuted)
    &&& piece_is(line[1], time_label(e.start_time, e.end_time), Tone::ThemeAccent)
    &&& piece_is(line[2], e.title@, Tone::ThemeText)
}

/// Upcoming events panel: purely informational, no interaction.
pub struct UpcomingEventsWidget<'a> {
    pub events: &'a Vec<Event>,
    pub config: &'a Config,
}

impl<'a> UpcomingEventsWidget<'a> {
    pub fn new(events: &'a Vec<Event>, config: &'a Config) -> (r: Self)
        ensures
            r.events == events,
            r.config == config,
    {
        UpcomingEventsWidget { events, config }
    }

    /// The panel's title.
    pub fn title(&self) -> (r: &'static str)
        ensures
            r@ == " Upcoming "@,
    {
        " Upcoming "
    }

    /// The lines of the list: one per event, or a notice when there are none.
    pub fn lines(&self) -> (r: Vec<Vec<Piece>>)
        requires
            forall|i: int| 0 <= i < self.events@.len() ==> (#[trigger] self.events@[i]).date.valid(),
        ensures
            self.events@.len() == 0 ==> r@.len() == 2 && r@[0]@.len() == 1 && piece_is(r@[0]@[0], Seq::empty(), Tone::Plain)
                && r@[1]@.len() == 1 && piece_is(r@[1]@[0], "  No upcoming events"@, Tone::ThemeMuted),
            self.events@.len() > 0 ==> r@.len() == self.events@.len() && forall|i: int| 0 <= i < r@.len() ==> upcoming_line_ok(
                (#[trigger] r@[i])@,
                self.events@[i],
            ),
    {
        let mut out: Vec<Vec<Piece>> = Vec::new();
        if self.events.len() == 0 {
            out.push(vec![Piece { text: String::new(), tone: Tone::Plain }]);
            out.push(vec![Piece { text: "  No upcoming events".to_owned(), tone: Tone::ThemeMuted }]);
            return out;
        }
        let mut i: usize = 0;
        while i < self.events.len()
            invariant
                i <= self.events@.len(),
                forall|j: int| 0 <= j < self.events@.len() ==> (#[trigger] self.events@[j]).date.valid(),
                out@.len() == i,
                forall|j: int| 0 <= j < i ==> upcoming_line_ok((#[trigger] out@[j])@, self.events@[j]),
            decreases self.events@.len() - i,
        {
            let e = &self.events[i];
            let mut date = e.date.format_short_padded();
            crate::text::string_push(&mut date, ' ');
            assert(date@ =~= short_padded_text(e.date) + seq![' ']);
            let time = time_label_text(&e.start_time, &e.end_time);
            let line = vec![
                Piece { text: date, tone: Tone::ThemeMuted },
                Piece { text: time, tone: Tone::ThemeAccent },
                Piece { text: e.title.clone(), tone: Tone::ThemeText },
            ];
            out.push(line);
            i = i + 1;
        }
        out
    }
}

} // verus!
