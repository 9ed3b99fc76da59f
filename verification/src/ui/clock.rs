//! The clock: the current time, the date and the configured time zone.

use vstd::prelude::*;
use std::fmt::Write;
use crate::config::Config;
use crate::ui::event_list::piece_is;
use crate::ui::paint::{Piece, Tone};

verus! {

/// An instant as the clock reads it: seconds and nanoseconds since the Unix
/// epoch, in the IANA time zone named `zone`.
#[derive(Debug, Clone)]
pub struct ZonedTime {
    pub timestamp: i64,
    pub nanos: u32,
    pub zone: String,
}

/// The text that chrono's strftime `format` writes for the instant
/// (`timestamp`, `nanos`) in the IANA zone `zone` under `pattern`; `None`
/// when chrono-tz does not know the zone, the instant lies outside chrono's
/// range, or the pattern holds an item chrono cannot write.
pub uninterp spec fn zoned_strftime(zone: Seq<char>, timestamp: i64, nanos: u32, pattern: Seq<char>) -> Option<Seq<char>>;

/// The zone's name in brackets, as the clock labels it.
pub open spec fn zone_label(zone: Seq<char>) -> Seq<char> {
    seq!['('] + zone + seq![')']
}

/// The clock's two lines for a time text and a date text: the time in bold
/// magenta; then the date in white, two spaces, and the configured zone in
/// dark gray.
pub open spec fn clock_lines_ok(lines: Seq<Vec<Piece>>, time: Seq<char>, date: Seq<char>, zone: Seq<char>) -> bool {
    &&& lines.len() == 2
    &&& lines[0]@.len() == 1
    &&& piece_is(lines[0]@[0], time, Tone::AccentBold)
    &&& lines[1]@.len() == 3
    &&& piece_is(lines[1]@[0], date, Tone::White)
    &&& piece_is(lines[1]@[1], "  "@, Tone::Plain)
    &&& piece_is(lines[1]@[2], zone_label(zone), Tone::Muted)
}

/// Clock widget showing current time, date, and timezone.
pub struct ClockWidget<'a> {
    pub now: ZonedTime,
    pub config: &'a Config,
}

impl<'a> ClockWidget<'a> {
    pub fn new(now: ZonedTime, config: &'a Config) -> (r: Self)
        ensures
            r.now == now,
            r.config == config,
    {
        ClockWidget { now, config }
    }

    /// The current time as the configured time format writes it.
    pub fn time_text(&self) -> (r: Option<String>)
        ensures
            r is Some <==> zoned_strftime(self.now.zone@, self.now.timestamp, self.now.nanos, self.config.time_format@) is Some,
            r matches Some(s) ==> zoned_strftime(self.now.zone@, self.now.timestamp, self.now.nanos, self.config.time_format@)
                == Some(s@),
    {
        chrono_tz_strftime(self.now.zone.as_str(), self.now.timestamp, self.now.nanos, self.config.time_format.as_str())
    }

    /// The current date as the configured date format writes it.
    pub fn date_text(&self) -> (r: Option<String>)
        ensures
            r is Some <==> zoned_strftime(self.now.zone@, self.now.timestamp, self.now.nanos, self.config.date_format@) is Some,
            r matches Some(s) ==> zoned_strftime(self.now.zone@, self.now.timestamp, self.now.nanos, self.config.date_format@)
                == Some(s@),
    {
        chrono_tz_strftime(self.now.zone.as_str(), self.now.timestamp, self.now.nanos, self.config.date_format.as_str())
    }

    /// The clock's lines for the given time and date texts.
    pub fn lines_for(&self, time: String, date: String) -> (r: Vec<Vec<Piece>>)
        ensures
            clock_lines_ok(r@, time@, date@, self.config.timezone@),
    {
        let mut label = "(".to_owned();
        proof {
            reveal_strlit("(");
            reveal_strlit(")");
        }
        label.append(self.config.timezone.as_str());
        label.append(")");
        assert(label@ =~= zone_label(self.config.timezone@));
        vec![
            vec![Piece { text: time, tone: Tone::AccentBold }],
            vec![
                Piece { text: date, tone: Tone::White },
                Piece { text: "  ".to_owned(), tone: Tone::Plain },
                Piece { text: label, tone: Tone::Muted },
            ],
        ]
    }

    /// The clock's lines: the current time and date in the configured formats
    /// and the configured zone; `None` when a format cannot be written.
    pub fn lines(&self) -> (r: Option<Vec<Vec<Piece>>>)
        ensures
            ({
                let time = zoned_strftime(self.now.zone@, self.now.timestamp, self.now.nanos, self.config.time_format@);
                let date = zoned_strftime(self.now.zone@, self.now.timestamp, self.now.nanos, self.config.date_format@);
                &&& r is Some <==> time is Some && date is Some
                &&& r matches Some(l) ==> clock_lines_ok(l@, time.unwrap(), date.unwrap(), self.config.timezone@)
            }),
    {
        let time = match self.time_text() {
            Some(t) => t,
            None => return None,
        };
        let date = match self.date_text() {
            Some(d) => d,
            None => return None,
        };
        Some(self.lines_for(time, date))
    }
}

/// `chrono::DateTime::format` of the instant taken into the `chrono_tz::Tz`
/// named `zone`, written into a `String`: named by `zoned_strftime`.  chrono
/// reports a pattern it cannot write as a formatting error, which comes back
/// as `None` here.
#[verifier::external_body]
fn chrono_tz_strftime(zone: &str, timestamp: i64, nanos: u32, pattern: &str) -> (r: Option<String>)
    ensures
        r is Some <==> zoned_strftime(zone@, timestamp, nanos, pattern@) is Some,
        r matches Some(s) ==> zoned_strftime(zone@, timestamp, nanos, pattern@) == Some(s@),
{
    let tz: chrono_tz::Tz = zone.parse().ok()?;
    let local = chrono::DateTime::from_timestamp(timestamp, nanos)?.with_timezone(&tz);
    let mut out = String::new();
    match write!(out, "{}", local.format(pattern)) {
        Ok(()) => Some(out),
        Err(_) => None,
    }
}

} // verus!
