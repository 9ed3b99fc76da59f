//! The overlays: the event form, the delete confirmation, the command palette
//! and the event details.  Their outer areas that are a share of the screen
//! are measured by the terminal front end; what they draw inside is here.

use vstd::prelude::*;
use crate::app::{ModalMode, ModalState};
use crate::date::long_text;
use crate::events::{Event, Recurrence};
use crate::ui::layout::{Rect, inside_border, min_int, sat_sub};
use crate::ui::paint::{Line, Piece, Placed, Tone, pieces_are};

verus! {

/// The form's title for creating or editing.
pub open spec fn modal_title_text(mode: ModalMode) -> Seq<char> {
    match mode {
        ModalMode::Create => " New Event "@,
        ModalMode::Edit => " Edit Event "@,
    }
}

/// The form's title for creating or editing.
pub fn modal_title(mode: ModalMode) -> (r: &'static str)
    ensures
        r@ == modal_title_text(mode),
{
    match mode {
        ModalMode::Create => " New Event ",
        ModalMode::Edit => " Edit Event ",
    }
}

/// Whether the form's contents are drawn inside `inner`.
pub open spec fn form_fits(inner: Rect) -> bool {
    inner.height >= 4 && inner.width >= 10
}

/// How many of `n` fields fit, three rows each, above the three rows kept
/// for the error message and the hints.
pub open spec fn form_fields_shown(inner: Rect, n: int) -> int {
    if form_fits(inner) { min_int(n, (inner.height - 3) / 3) } else { 0 }
}

/// A field of the form as drawn: its label, the row of its input box, and
/// whether it has the focus.
#[derive(Debug, Clone)]
pub struct FieldView {
    pub label: Placed,
    pub input: Rect,
    pub focused: bool,
}

/// What the form draws inside its border.
#[derive(Debug, Clone)]
pub struct ModalLayout {
    pub fields: Vec<FieldView>,
    pub error: Option<Line>,
    pub footer: Option<Line>,
}

/// The hints at the foot of the form.
pub open spec fn footer_texts() -> Seq<Seq<char>> {
    seq!["Tab"@, " navigate "@, "Enter"@, " save "@, "Esc"@, " cancel "@]
}

pub open spec fn footer_tones() -> Seq<Tone> {
    seq![Tone::AccentBold, Tone::Muted, Tone::AccentBold, Tone::Muted, Tone::AccentBold, Tone::Muted]
}

fn piece(text: &str, tone: Tone) -> (r: Piece)
    ensures
        r.text@ == text@,
        r.tone == tone,
{
    Piece { text: text.to_owned(), tone }
}

/// What the form `modal` draws inside its border `inner`: a label and an
/// input row per field that fits, the error message three rows from the
/// bottom, and the hints on the last row.
pub fn modal_layout(modal: &ModalState, inner: Rect) -> (r: ModalLayout)
    requires
        inner.fits(),
    ensures
        r.fields@.len() == form_fields_shown(inner, modal.fields@.len() as int),
        forall|i: int| 0 <= i < r.fields@.len() ==> {
            let f = #[trigger] r.fields@[i];
            &&& f.label.x == inner.x
            &&& f.label.y == inner.y + 3 * i
            &&& f.label.text@ == modal.fields@[i].label@
            &&& f.focused == (i == modal.focused_field)
            &&& f.label.tone == (if i == modal.focused_field { Tone::AccentBold } else { Tone::Muted })
            &&& f.input.x == inner.x && f.input.y == inner.y + 3 * i + 1 && f.input.width == inner.width && f.input.height == 1
        },
        !form_fits(inner) ==> r.error is None && r.footer is None,
        form_fits(inner) ==> match modal.error_message {
            Some(e) => r.error matches Some(l) && l.x == inner.x && l.y == inner.y + inner.height - 3 && l.width == inner.width
                && pieces_are(l.pieces@, seq![e@], seq![Tone::Alert]),
            None => r.error is None,
        },
        form_fits(inner) ==> (r.footer matches Some(l) && l.x == inner.x && l.y == inner.y + inner.height - 1 && l.width
            == inner.width && pieces_are(l.pieces@, footer_texts(), footer_tones())),
{
    let mut fields: Vec<FieldView> = Vec::new();
    if inner.height < 4 || inner.width < 10 {
        return ModalLayout { fields, error: None, footer: None };
    }
    let available = inner.height - 3;
    let mut i: usize = 0;
    while i < modal.fields.len()
        invariant
            i <= modal.fields@.len(),
            inner.fits(),
            form_fits(inner),
            available == inner.height - 3,
            fields@.len() == i,
            i <= form_fields_shown(inner, modal.fields@.len() as int),
            forall|j: int| 0 <= j < fields@.len() ==> {
                let f = #[trigger] fields@[j];
                &&& f.label.x == inner.x
                &&& f.label.y == inner.y + 3 * j
                &&& f.label.text@ == modal.fields@[j].label@
                &&& f.focused == (j == modal.focused_field)
                &&& f.label.tone == (if j == modal.focused_field { Tone::AccentBold } else { Tone::Muted })
                &&& f.input.x == inner.x && f.input.y == inner.y + 3 * j + 1 && f.input.width == inner.width && f.input.height == 1
            },
        ensures
            fields@.len() == form_fields_shown(inner, modal.fields@.len() as int),
        decreases modal.fields@.len() - i,
    {
        if 3 * (i as u64) + 3 > available as u64 {
            break;
        }
        let field_y = inner.y + 3 * (i as u16);
        let focused = i == modal.focused_field;
        let label = Placed {
            x: inner.x,
            y: field_y,
            text: modal.fields[i].label.to_owned(),
            tone: if focused { Tone::AccentBold } else { Tone::Muted },
        };
        let input = Rect { x: inner.x, y: field_y + 1, width: inner.width, height: 1 };
        fields.push(FieldView { label, input, focused });
        i = i + 1;
    }
    let error = match &modal.error_message {
        Some(e) => Some(
            Line { x: inner.x, y: inner.y + (inner.height - 3), width: inner.width, pieces: vec![Piece { text: e.clone(), tone: Tone::Alert }] },
        ),
        None => None,
    };
    let pieces = vec![
        piece("Tab", Tone::AccentBold),
        piece(" navigate ", Tone::Muted),
        piece("Enter", Tone::AccentBold),
        piece(" save ", Tone::Muted),
        piece("Esc", Tone::AccentBold),
        piece(" cancel ", Tone::Muted),
    ];
    let footer = Some(Line { x: inner.x, y: inner.y + (inner.height - 1), width: inner.width, pieces });
    ModalLayout { fields, error, footer }
}

/// The field of `n` fields under `(x, y)` in a form drawn in `area`: a click
/// on a field row picks that field, any other click inside keeps the focused
/// field `focused`.
pub open spec fn modal_hit(x: int, y: int, area: Rect, n: int, focused: usize) -> Option<usize> {
    let inner = inside_border(area);
    if x < area.x || x >= area.x + area.width || y < area.y || y >= area.y + area.height {
        None
    } else if !form_fits(inner) {
        None
    } else if inner.y <= y < inner.y + 3 * form_fields_shown(inner, n) {
        Some(((y - inner.y) / 3) as usize)
    } else {
        Some(focused)
    }
}

/// Hit-test a form drawn in `modal_area`: the field index under `(x, y)`, or
/// `None` when outside.
pub fn hit_test_modal_in(x: u16, y: u16, modal_area: Rect, modal: &ModalState) -> (r: Option<usize>)
    requires
        modal_area.fits(),
    ensures
        r == modal_hit(x as int, y as int, modal_area, modal.fields@.len() as int, modal.focused_field),
{
    if x < modal_area.x || x >= modal_area.x + modal_area.width || y < modal_area.y || y >= modal_area.y + modal_area.height {
        return None;
    }
    let inner = modal_area.bordered_inner();
    if inner.height < 4 || inner.width < 10 {
        return None;
    }
    let available = inner.height - 3;
    let mut i: usize = 0;
    while i < modal.fields.len()
        invariant
            i <= modal.fields@.len(),
            inner == inside_border(modal_area),
            modal_area.x <= x < modal_area.x + modal_area.width,
            modal_area.y <= y < modal_area.y + modal_area.height,
            form_fits(inner),
            available == inner.height - 3,
            i <= form_fields_shown(inner, modal.fields@.len() as int),
            !(inner.y <= y < inner.y + 3 * i),
        ensures
            !(inner.y <= y < inner.y + 3 * form_fields_shown(inner, modal.fields@.len() as int)),
        decreases modal.fields@.len() - i,
    {
        if 3 * (i as u64) + 3 > available as u64 {
            break;
        }
        let field_y = inner.y as u64 + 3 * (i as u64);
        if y as u64 >= field_y && (y as u64) < field_y + 3 {
            proof {
                let h = inner.height as int;
                assert(3 * i + 3 <= h - 3);
                assert(i + 1 <= (h - 3) / 3);
                assert(i < form_fields_shown(inner, modal.fields@.len() as int));
                assert((y - inner.y) / 3 == i);
            }
            return Some(i);
        }
        i = i + 1;
    }
    Some(modal.focused_field)
}

/// The area of the delete confirmation: 40 by 5 cells at most, centred in `area`.
pub open spec fn confirm_area(area: Rect) -> Rect {
    let w = min_int(40, sat_sub(area.width as int, 4));
    let h = min_int(5, sat_sub(area.height as int, 2));
    Rect {
        x: (area.x + sat_sub(area.width as int, w) / 2) as u16,
        y: (area.y + sat_sub(area.height as int, h) / 2) as u16,
        width: w as u16,
        height: h as u16,
    }
}

/// The area of the delete confirmation in `area`.
pub fn delete_confirm_area(area: Rect) -> (r: Rect)
    requires
        area.fits(),
    ensures
        r == confirm_area(area),
        r.fits(),
{
    let w: u16 = if area.width >= 44 { 40 } else if area.width >= 4 { area.width - 4 } else { 0 };
    let h: u16 = if area.height >= 7 { 5 } else if area.height >= 2 { area.height - 2 } else { 0 };
    Rect { x: area.x + (area.width - w) / 2, y: area.y + (area.height - h) / 2, width: w, height: h }
}

/// The question of the delete confirmation, on the second row inside its
/// border `inner`, when there is room.
pub fn delete_confirm_line(inner: Rect) -> (r: Option<Line>)
    requires
        inner.fits(),
    ensures
        !(inner.height >= 2 && inner.width >= 10) ==> r is None,
        (inner.height >= 2 && inner.width >= 10) ==> (r matches Some(l) && l.x == inner.x && l.y == inner.y + 1 && l.width
            == inner.width && pieces_are(
            l.pieces@,
            seq!["Delete this event? "@, "[y]"@, "es / "@, "[n]"@, "o"@],
            seq![Tone::White, Tone::AccentBold, Tone::White, Tone::AccentBold, Tone::White],
        )),
{
    if inner.height >= 2 && inner.width >= 10 {
        let pieces = vec![
            piece("Delete this event? ", Tone::White),
            piece("[y]", Tone::AccentBold),
            piece("es / ", Tone::White),
            piece("[n]", Tone::AccentBold),
            piece("o", Tone::White),
        ];
        Some(Line { x: inner.x, y: inner.y + 1, width: inner.width, pieces })
    } else {
        None
    }
}

/// The keys the command palette lists.
pub open spec fn command_keys() -> Seq<Seq<char>> {
    seq!["n"@, "e"@, "d"@, "v"@, "t"@, "1/2/3"@, "Tab"@, "hjkl/arrows"@, "Ctrl+P"@, "q"@]
}

/// What each listed key does.
pub open spec fn command_descriptions() -> Seq<Seq<char>> {
    seq![
        "New event"@,
        "Edit event"@,
        "Delete event"@,
        "Toggle month/week view"@,
        "Go to today"@,
        "Switch panel"@,
        "Cycle focus"@,
        "Navigate"@,
        "Toggle palette"@,
        "Quit"@,
    ]
}

fn command(i: usize) -> (r: (&'static str, &'static str))
    requires
        i < 10,
    ensures
        r.0@ == command_keys()[i as int],
        r.1@ == command_descriptions()[i as int],
{
    if i == 0 {
        ("n", "New event")
    } else if i == 1 {
        ("e", "Edit event")
    } else if i == 2 {
        ("d", "Delete event")
    } else if i == 3 {
        ("v", "Toggle month/week view")
    } else if i == 4 {
        ("t", "Go to today")
    } else if i == 5 {
        ("1/2/3", "Switch panel")
    } else if i == 6 {
        ("Tab", "Cycle focus")
    } else if i == 7 {
        ("hjkl/arrows", "Navigate")
    } else if i == 8 {
        ("Ctrl+P", "Toggle palette")
    } else {
        ("q", "Quit")
    }
}

/// The lines of the command palette inside its border `inner`: one per
/// command as far as they fit, then the hint to close it when there is room.
pub fn palette_lines(inner: Rect) -> (r: Vec<Line>)
    requires
        inner.fits(),
    ensures
        !(inner.height >= 2 && inner.width >= 5) ==> r@.len() == 0,
        (inner.height >= 2 && inner.width >= 5) ==> {
            let k = min_int(10, inner.height as int);
            &&& r@.len() == k + (if 10 < inner.height { 1int } else { 0int })
            &&& forall|i: int| 0 <= i < k ==> {
                let l = #[trigger] r@[i];
                &&& l.x == inner.x + 1 && l.y == inner.y + i && l.width == inner.width - 2
                &&& pieces_are(l.pieces@, seq![seq![' '] + command_keys()[i] + seq![' '], command_descriptions()[i]],
                    seq![Tone::AccentBold, Tone::White])
            }
            &&& 10 < inner.height ==> {
                let l = r@[10];
                &&& l.x == inner.x + 1 && l.y == inner.y + 10 && l.width == inner.width - 2
                &&& pieces_are(l.pieces@, seq!["Esc, Ctrl+P, or q to close"@], seq![Tone::Muted])
            }
        },
{
    let mut out: Vec<Line> = Vec::new();
    if inner.height < 2 || inner.width < 5 {
        return out;
    }
    let mut i: usize = 0;
    while i < 10
        invariant
            i <= 10,
            inner.fits(),
            inner.height >= 2 && inner.width >= 5,
            out@.len() == i,
            i <= min_int(10, inner.height as int),
            forall|j: int| 0 <= j < i ==> {
                let l = #[trigger] out@[j];
                &&& l.x == inner.x + 1 && l.y == inner.y + j && l.width == inner.width - 2
                &&& pieces_are(l.pieces@, seq![seq![' '] + command_keys()[j] + seq![' '], command_descriptions()[j]],
                    seq![Tone::AccentBold, Tone::White])
            },
        ensures
            out@.len() == min_int(10, inner.height as int),
        decreases 10 - i,
    {
        if i as u16 >= inner.height {
            break;
        }
        let (key, desc) = command(i);
        let mut k = String::new();
        crate::text::string_push(&mut k, ' ');
        k.append(key);
        crate::text::string_push(&mut k, ' ');
        assert(k@ =~= seq![' '] + command_keys()[i as int] + seq![' ']);
        let pieces = vec![Piece { text: k, tone: Tone::AccentBold }, piece(desc, Tone::White)];
        proof {
            assert(pieces@[0].text@ == seq![' '] + command_keys()[i as int] + seq![' ']);
        }
        out.push(Line { x: inner.x + 1, y: inner.y + i as u16, width: inner.width - 2, pieces });
        i = i + 1;
    }
    if 10 < inner.height {
        let pieces = vec![piece("Esc, Ctrl+P, or q to close", Tone::Muted)];
        out.push(Line { x: inner.x + 1, y: inner.y + 10, width: inner.width - 2, pieces });
    }
    out
}

/// The event has a description that is not empty.
pub open spec fn has_description(e: Event) -> bool {
    e.description matches Some(d) && d@.len() > 0
}

/// Height of the details overlay in an area `area_height` rows high.
pub open spec fn detail_height(e: Event, area_height: int) -> int {
    min_int(7 + (if has_description(e) { 2int } else { 0int }), sat_sub(area_height, 4))
}

/// The details overlay: `width` wide, as high as its contents, centred in `area`.
pub open spec fn detail_rect(area: Rect, width: int, e: Event) -> Rect {
    let h = detail_height(e, area.height as int);
    Rect {
        x: (area.x + sat_sub(area.width as int, width) / 2) as u16,
        y: (area.y + sat_sub(area.height as int, h) / 2) as u16,
        width: width as u16,
        height: h as u16,
    }
}

/// The area of the details of `event` in `area`, for an overlay `width` wide.
pub fn event_detail_area(area: Rect, width: u16, event: &Event) -> (r: Rect)
    requires
        area.fits(),
        width <= area.width,
    ensures
        r == detail_rect(area, width as int, *event),
        r.fits(),
{
    let has_desc = match &event.description {
        Some(d) => d.as_str().unicode_len() > 0,
        None => false,
    };
    let full: u16 = if has_desc { 9 } else { 7 };
    let room: u16 = if area.height >= 4 { area.height - 4 } else { 0 };
    let h = if full < room { full } else { room };
    Rect { x: area.x + (area.width - width) / 2, y: area.y + (area.height - h) / 2, width, height: h }
}

/// The time of an event as the details show it.
pub open spec fn detail_time(start: Option<String>, end: Option<String>) -> Seq<char> {
    match (start, end) {
        (Some(s), Some(e)) => s@ + " - "@ + e@,
        (Some(s), None) => s@,
        (None, Some(e)) => "? - "@ + e@,
        (None, None) => "All day"@,
    }
}

fn detail_time_text(start: &Option<String>, end: &Option<String>) -> (r: String)
    ensures
        r@ == detail_time(*start, *end),
{
    match (start, end) {
        (Some(s), Some(e)) => {
            let mut t = s.clone();
            t.append(" - ");
            t.append(e.as_str());
            t
        },
        (Some(s), None) => s.clone(),
        (None, Some(e)) => {
            let mut t = "? - ".to_owned();
            t.append(e.as_str());
            t
        },
        (None, None) => "All day".to_owned(),
    }
}

/// A recurrence's name as the details show it.
pub open spec fn recurrence_name(r: Recurrence) -> Seq<char> {
    match r {
        Recurrence::Never => "None"@,
        Recurrence::Daily => "Daily"@,
        Recurrence::Weekly => "Weekly"@,
        Recurrence::Monthly => "Monthly"@,
    }
}

fn recurrence_name_text(r: Recurrence) -> (t: &'static str)
    ensures
        t@ == recurrence_name(r),
{
    match r {
        Recurrence::Never => "None",
        Recurrence::Daily => "Daily",
        Recurrence::Weekly => "Weekly",
        Recurrence::Monthly => "Monthly",
    }
}

/// `l` is a line of the details at row `y`, indented by `indent`.
pub open spec fn detail_line_at(l: Line, inner: Rect, y: int, indent: int) -> bool {
    l.x == inner.x + indent && l.y == y && l.width == sat_sub(inner.width as int, indent + 1)
}

/// Rows taken by the details of `e`, counting the blank row before the hint.
pub open spec fn detail_rows(e: Event) -> int {
    if has_description(e) { 7 } else { 5 }
}

/// The lines of the details of `event` inside the overlay's border `inner`:
/// title, date, time, recurrence, the description when there is one, and
/// after a blank row the hint to close, when it fits.
pub fn event_detail_lines(event: &Event, inner: Rect) -> (r: Vec<Line>)
    requires
        inner.fits(),
        inner.y + detail_rows(*event) <= u16::MAX,
        event.date.valid(),
    ensures
        !(inner.height >= 3 && inner.width >= 10) ==> r@.len() == 0,
        (inner.height >= 3 && inner.width >= 10) ==> {
            let d = if has_description(*event) { 2int } else { 0int };
            let hint = detail_rows(*event) < inner.height;
            &&& r@.len() == 4 + d + (if hint { 1int } else { 0int })
            &&& detail_line_at(r@[0], inner, inner.y as int, 1) && pieces_are(r@[0].pieces@, seq!["Title: "@, event.title@],
                seq![Tone::Muted, Tone::WhiteBold])
            &&& detail_line_at(r@[1], inner, inner.y + 1, 1) && pieces_are(r@[1].pieces@, seq!["Date: "@, long_text(event.date)],
                seq![Tone::Muted, Tone::White])
            &&& detail_line_at(r@[2], inner, inner.y + 2, 1) && pieces_are(r@[2].pieces@, seq!["Time: "@,
                detail_time(event.start_time, event.end_time)], seq![Tone::Muted, Tone::White])
            &&& detail_line_at(r@[3], inner, inner.y + 3, 1) && pieces_are(r@[3].pieces@, seq!["Recurrence: "@,
                recurrence_name(event.recurrence)], seq![Tone::Muted, Tone::White])
            &&& has_description(*event) ==> {
                &&& detail_line_at(r@[4], inner, inner.y + 4, 1) && pieces_are(r@[4].pieces@, seq!["Description:"@], seq![Tone::Muted])
                &&& detail_line_at(r@[5], inner, inner.y + 5, 2) && pieces_are(r@[5].pieces@, seq![event.description.unwrap()@],
                    seq![Tone::White])
            }
            &&& hint ==> detail_line_at(r@[4 + d], inner, inner.y + detail_rows(*event), 1) && pieces_are(
                r@[4 + d].pieces@,
                seq!["Esc or Enter to close"@],
                seq![Tone::Muted],
            )
        },
{
    let mut out: Vec<Line> = Vec::new();
    if inner.height < 3 || inner.width < 10 {
        return out;
    }
    let x = inner.x + 1;
    let w = inner.width - 2;
    out.push(Line { x, y: inner.y, width: w, pieces: vec![piece("Title: ", Tone::Muted), Piece { text: event.title.clone(), tone: Tone::WhiteBold }] });
    out.push(Line { x, y: inner.y + 1, width: w, pieces: vec![piece("Date: ", Tone::Muted), Piece { text: event.date.format_long(), tone: Tone::White }] });
    out.push(Line { x, y: inner.y + 2, width: w, pieces: vec![piece("Time: ", Tone::Muted), Piece { text: detail_time_text(&event.start_time, &event.end_time), tone: Tone::White }] });
    out.push(Line { x, y: inner.y + 3, width: w, pieces: vec![piece("Recurrence: ", Tone::Muted), piece(recurrence_name_text(event.recurrence), Tone::White)] });
    let mut rows: u16 = 4;
    match &event.description {
        Some(desc) => {
            if desc.as_str().unicode_len() > 0 {
                out.push(Line { x, y: inner.y + 4, width: w, pieces: vec![piece("Description:", Tone::Muted)] });
                out.push(Line { x: inner.x + 2, y: inner.y + 5, width: inner.width - 3, pieces: vec![Piece { text: desc.clone(), tone: Tone::White }] });
                rows = 6;
            }
        },
        None => {},
    }
    rows = rows + 1;
    if rows < inner.height {
        out.push(Line { x, y: inner.y + rows, width: w, pieces: vec![piece("Esc or Enter to close", Tone::Muted)] });
    }
    out
}

/// The title of the delete confirmation.
pub fn confirm_title() -> (r: &'static str)
    ensures
        r@ == " Confirm Delete "@,
{
    " Confirm Delete "
}

/// The title of the command palette.
pub fn palette_title() -> (r: &'static str)
    ensures
        r@ == " Commands "@,
{
    " Commands "
}

/// The title of the event details.
pub fn detail_title() -> (r: &'static str)
    ensures
        r@ == " Event Details "@,
{
    " Event Details "
}

} // verus!
