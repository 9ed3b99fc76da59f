//! A single-line text input: a string buffer with a cursor at a byte position,
//! and what its widget draws.

use vstd::prelude::*;
use vstd::utf8::*;
use crate::ui::layout::Rect;
use crate::ui::paint::{Piece, Tone};
use crate::text::{
    byte_len, byte_offset, char_width, is_boundary, lemma_encode_empty, lemma_byte_offset_ends, lemma_byte_offset_strict, lemma_byte_offset_unique,
    lemma_char_bytes, lemma_encode_concat, lemma_encode_injective, lemma_encode_single,
    lemma_encode_split, lemma_scalar_shape, string_drain, string_insert, utf8_width,
    width_from_leading_byte,
};

verus! {

/// Edit state of a text input: its characters and the cursor's character index.
pub type EditState = (Seq<char>, int);

/// Inserting `c` at the cursor.
pub open spec fn edit_insert(e: EditState, c: char) -> EditState {
    (e.0.take(e.1) + seq![c] + e.0.skip(e.1), e.1 + 1)
}

/// Deleting the character before the cursor.
pub open spec fn edit_delete_backward(e: EditState) -> EditState {
    if e.1 == 0 { e } else { (e.0.take(e.1 - 1) + e.0.skip(e.1), e.1 - 1) }
}

/// Moving the cursor one character to the left.
pub open spec fn edit_left(e: EditState) -> EditState {
    if e.1 == 0 { e } else { (e.0, e.1 - 1) }
}

/// Moving the cursor one character to the right.
pub open spec fn edit_right(e: EditState) -> EditState {
    if e.1 >= e.0.len() { e } else { (e.0, e.1 + 1) }
}

/// A minimal text input with cursor and character editing.
///
/// `cursor_pos` is a byte position in `buffer`; `max_length` bounds the byte
/// length at which further insertions are refused.
#[derive(Debug, Clone)]
pub struct TextInput {
    pub buffer: String,
    pub cursor_pos: usize,
    pub max_length: usize,
}

impl View for TextInput {
    type V = EditState;

    open spec fn view(&self) -> EditState {
        (self.buffer@, self.cursor_index())
    }
}

impl TextInput {
    /// The cursor lies on a character boundary of the buffer.
    pub open spec fn wf(self) -> bool {
        is_boundary(self.buffer@, self.cursor_pos as int)
    }

    /// Character index of the cursor.
    pub open spec fn cursor_index(self) -> int {
        choose|k: int| 0 <= k <= self.buffer@.len() && byte_offset(self.buffer@, k) == self.cursor_pos
    }

    /// Byte length of the buffer.
    pub open spec fn byte_length(self) -> int {
        byte_len(self.buffer@)
    }

    pub fn new(max_length: usize) -> (r: Self)
        ensures
            r.wf(),
            r@ == (Seq::<char>::empty(), 0int),
            r.cursor_pos == 0,
            r.max_length == max_length,
    {
        let r = Self { buffer: String::new(), cursor_pos: 0, max_length };
        proof {
            lemma_byte_offset_ends(r.buffer@);
            lemma_cursor_index(r, 0);
        }
        r
    }

    pub fn with_value(value: &str, max_length: usize) -> (r: Self)
        ensures
            r.wf(),
            r@ == (value@, value@.len() as int),
            r.cursor_pos == byte_len(value@),
            r.max_length == max_length,
    {
        let len = value.as_bytes().len();
        let r = Self { buffer: value.to_owned(), cursor_pos: len, max_length };
        proof {
            lemma_byte_offset_ends(r.buffer@);
            lemma_cursor_index(r, value@.len() as int);
        }
        r
    }

    /// Insert a character at the cursor position.
    pub fn insert_char(&mut self, c: char)
        requires
            old(self).wf(),
        ensures
            final(self).wf(),
            final(self).max_length == old(self).max_length,
            old(self).byte_length() >= old(self).max_length ==> final(self)@ == old(self)@
                && final(self).cursor_pos == old(self).cursor_pos,
            old(self).byte_length() < old(self).max_length ==> final(self)@ == edit_insert(
                old(self)@,
                c,
            ) && final(self).cursor_pos == old(self).cursor_pos + char_width(c),
    {
        let len = self.buffer.as_str().as_bytes().len();
        if len >= self.max_length {
            return;
        }
        let ghost s = self.buffer@;
        let ghost k = self.cursor_index();
        proof {
            lemma_cursor_index_spec(*self);
        }
        string_insert(&mut self.buffer, self.cursor_pos, c);
        let ghost t = s.take(k) + seq![c] + s.skip(k);
        proof {
            lemma_encode_split(s, k);
            lemma_encode_concat(s.take(k) + seq![c], s.skip(k));
            lemma_encode_concat(s.take(k), seq![c]);
            lemma_encode_single(c);
            lemma_encode_injective(self.buffer@, t);
            lemma_scalar_shape(c);
            assert(t.take(k + 1) =~= s.take(k) + seq![c]);
        }
        let w = utf8_width(c);
        self.cursor_pos = self.cursor_pos + w;
        proof {
            lemma_encode_split(t, k + 1);
            lemma_cursor_index(*self, k + 1);
        }
    }

    /// Delete the character before the cursor (backspace).
    pub fn delete_backward(&mut self)
        requires
            old(self).wf(),
        ensures
            final(self).wf(),
            final(self).max_length == old(self).max_length,
            final(self)@ == edit_delete_backward(old(self)@),
    {
        proof {
            lemma_cursor_index_spec(*self);
        }
        if self.cursor_pos == 0 {
            proof {
                lemma_byte_offset_ends(self.buffer@);
                lemma_byte_offset_unique(self.buffer@, 0, self.cursor_index());
            }
            return;
        }
        let ghost s = self.buffer@;
        let ghost k = self.cursor_index();
        proof {
            lemma_byte_offset_ends(s);
            if k == 0 {
                assert(false);
            }
        }
        let prev = self.prev_boundary();
        proof {
            lemma_byte_offset_strict(s, k - 1, k);
            assert(is_boundary(s, prev as int)) by {
                assert(0 <= k - 1 <= s.len() && byte_offset(s, k - 1) == prev);
            }
            assert(is_boundary(s, self.cursor_pos as int)) by {
                assert(0 <= k <= s.len() && byte_offset(s, k) == self.cursor_pos);
            }
        }
        string_drain(&mut self.buffer, prev, self.cursor_pos);
        let ghost t = s.take(k - 1) + s.skip(k);
        proof {
            lemma_encode_split(s, k - 1);
            lemma_encode_split(s, k);
            lemma_encode_concat(s.take(k - 1), s.skip(k));
            lemma_encode_injective(self.buffer@, t);
        }
        self.cursor_pos = prev;
        proof {
            assert(t.take(k - 1) =~= s.take(k - 1));
            lemma_cursor_index(*self, k - 1);
        }
    }

    /// Byte position of the character boundary just before the cursor.
    fn prev_boundary(&self) -> (r: usize)
        requires
            self.wf(),
            self.cursor_index() > 0,
        ensures
            r == byte_offset(self.buffer@, self.cursor_index() - 1),
    {
        let ghost s = self.buffer@;
        let ghost k = self.cursor_index();
        proof {
            lemma_cursor_index_spec(*self);
            lemma_char_bytes(s, k - 1);
            lemma_scalar_shape(s[k - 1]);
        }
        let bytes = self.buffer.as_str().as_bytes();
        let ghost start = byte_offset(s, k - 1);
        let ghost c = s[k - 1];
        assert(bytes@ == encode_utf8(s));
        assert(bytes@[start] == encode_scalar(c as u32)[0]);
        let mut i: usize = self.cursor_pos - 1;
        assert(bytes@[i as int] == encode_scalar(c as u32)[i - start]);
        while 0x80 <= bytes[i] && bytes[i] <= 0xbf
            invariant
                0 <= start <= i < self.cursor_pos,
                forall|t: int|
                    1 <= t < char_width(c) ==> is_continuation_byte(#[trigger] bytes@[start + t]),
                self.cursor_pos == start + char_width(c),
                bytes@ == encode_utf8(s),
                bytes@.len() == byte_len(s),
                self.cursor_pos <= byte_len(s),
                !is_continuation_byte(bytes@[start]),
            decreases i,
        {
            assert(i as int != start);
            i = i - 1;
        }
        i
    }

    /// Move cursor one character left.
    pub fn move_cursor_left(&mut self)
        requires
            old(self).wf(),
        ensures
            final(self).wf(),
            final(self).buffer == old(self).buffer,
            final(self).max_length == old(self).max_length,
            final(self)@ == edit_left(old(self)@),
    {
        proof {
            lemma_cursor_index_spec(*self);
            lemma_byte_offset_ends(self.buffer@);
        }
        if self.cursor_pos == 0 {
            proof {
                lemma_byte_offset_unique(self.buffer@, 0, self.cursor_index());
            }
            return;
        }
        let ghost k = self.cursor_index();
        let prev = self.prev_boundary();
        self.cursor_pos = prev;
        proof {
            lemma_cursor_index(*self, k - 1);
        }
    }

    /// Move cursor one character right.
    pub fn move_cursor_right(&mut self)
        requires
            old(self).wf(),
        ensures
            final(self).wf(),
            final(self).buffer == old(self).buffer,
            final(self).max_length == old(self).max_length,
            final(self)@ == edit_right(old(self)@),
    {
        let ghost s = self.buffer@;
        let ghost k = self.cursor_index();
        proof {
            lemma_cursor_index_spec(*self);
            lemma_byte_offset_ends(s);
        }
        let bytes = self.buffer.as_str().as_bytes();
        proof {
            assert(bytes@ == encode_utf8(s));
            lemma_encode_split(s, k);
        }
        if self.cursor_pos >= bytes.len() {
            proof {
                lemma_byte_offset_unique(s, s.len() as int, k);
            }
            return;
        }
        proof {
            if k == s.len() {
                assert(false);
            }
            lemma_char_bytes(s, k);
            lemma_scalar_shape(s[k]);
            assert(bytes@[self.cursor_pos as int] == encode_scalar(s[k] as u32)[0int]);
        }
        let w = width_from_leading_byte(bytes[self.cursor_pos]);
        self.cursor_pos = self.cursor_pos + w;
        proof {
            lemma_cursor_index(*self, k + 1);
        }
    }

    /// Move cursor to the beginning.
    pub fn move_cursor_home(&mut self)
        requires
            old(self).wf(),
        ensures
            final(self).wf(),
            final(self).buffer == old(self).buffer,
            final(self).max_length == old(self).max_length,
            final(self)@ == (old(self)@.0, 0int),
            final(self).cursor_pos == 0,
    {
        self.cursor_pos = 0;
        proof {
            lemma_byte_offset_ends(self.buffer@);
            lemma_cursor_index(*self, 0);
        }
    }

    /// Move cursor to the end.
    pub fn move_cursor_end(&mut self)
        requires
            old(self).wf(),
        ensures
            final(self).wf(),
            final(self).buffer == old(self).buffer,
            final(self).max_length == old(self).max_length,
            final(self)@ == (old(self)@.0, old(self)@.0.len() as int),
            final(self).cursor_pos == old(self).byte_length(),
    {
        self.cursor_pos = self.buffer.as_str().as_bytes().len();
        proof {
            lemma_byte_offset_ends(self.buffer@);
            lemma_cursor_index(*self, self.buffer@.len() as int);
        }
    }

    /// Get the buffer content.
    pub fn value(&self) -> (r: &str)
        ensures
            r@ == self.buffer@,
    {
        self.buffer.as_str()
    }

    /// Clear the buffer.
    pub fn clear(&mut self)
        ensures
            final(self).wf(),
            final(self).max_length == old(self).max_length,
            final(self)@ == (Seq::<char>::empty(), 0int),
            final(self).cursor_pos == 0,
    {
        self.buffer = String::new();
        self.cursor_pos = 0;
        proof {
            lemma_byte_offset_ends(self.buffer@);
            lemma_cursor_index(*self, 0);
        }
    }
}

/// The cursor index of a well-formed input is the index whose offset is the cursor.
proof fn lemma_cursor_index_spec(t: TextInput)
    requires
        t.wf(),
    ensures
        0 <= t.cursor_index() <= t.buffer@.len(),
        byte_offset(t.buffer@, t.cursor_index()) == t.cursor_pos,
{
}

/// When the cursor sits at the offset of index `k`, the input is well formed and `k` is its cursor index.
proof fn lemma_cursor_index(t: TextInput, k: int)
    requires
        0 <= k <= t.buffer@.len(),
        byte_offset(t.buffer@, k) == t.cursor_pos,
    ensures
        t.wf(),
        t.cursor_index() == k,
        t@ == (t.buffer@, k),
{
    assert(is_boundary(t.buffer@, t.cursor_pos as int));
    lemma_cursor_index_spec(t);
    lemma_byte_offset_unique(t.buffer@, k, t.cursor_index());
}

/// Deleting the character just inserted restores the input.
pub proof fn law_delete_backward_undoes_insert(e: EditState, c: char)
    requires
        0 <= e.1 <= e.0.len(),
    ensures
        edit_delete_backward(edit_insert(e, c)) == e,
{
    let (s, k) = e;
    let t = s.take(k) + seq![c] + s.skip(k);
    assert(t.take(k) =~= s.take(k));
    assert(t.skip(k + 1) =~= s.skip(k));
    assert(s.take(k) + s.skip(k) =~= s);
}

/// Moving right after moving left returns to the same place, away from the start.
pub proof fn law_right_undoes_left(e: EditState)
    requires
        0 < e.1 <= e.0.len(),
    ensures
        edit_right(edit_left(e)) == e,
{
}

/// Moving left after moving right returns to the same place, away from the end.
pub proof fn law_left_undoes_right(e: EditState)
    requires
        0 <= e.1 < e.0.len(),
    ensures
        edit_left(edit_right(e)) == e,
{
}

/// Editing keeps the cursor within the text.
pub proof fn law_edits_keep_cursor_in_text(e: EditState, c: char)
    requires
        0 <= e.1 <= e.0.len(),
    ensures
        0 <= edit_insert(e, c).1 <= edit_insert(e, c).0.len(),
        0 <= edit_delete_backward(e).1 <= edit_delete_backward(e).0.len(),
        0 <= edit_left(e).1 <= edit_left(e).0.len(),
        0 <= edit_right(e).1 <= edit_right(e).0.len(),
        edit_insert(e, c).0.len() == e.0.len() + 1,
{
}

/// The character index of byte position `b`, a boundary of `s`.
fn char_index_at(s: &str, b: usize) -> (k: usize)
    requires
        is_boundary(s@, b as int),
    ensures
        k <= s@.len(),
        byte_offset(s@, k as int) == b,
{
    let n = s.unicode_len();
    let ghost k0 = choose|k: int| 0 <= k <= s@.len() && byte_offset(s@, k) == b;
    proof {
        lemma_byte_offset_ends(s@);
    }
    let mut k: usize = 0;
    let mut acc: usize = 0;
    while acc < b
        invariant
            n == s@.len(),
            0 <= k0 <= s@.len(),
            byte_offset(s@, k0) == b,
            k <= k0,
            acc == byte_offset(s@, k as int),
        decreases k0 - k,
    {
        proof {
            if k == k0 {
                assert(false);
            }
            lemma_char_bytes(s@, k as int);
            lemma_byte_offset_ends(s@);
            if k + 1 < k0 {
                lemma_byte_offset_strict(s@, k + 1, k0);
            }
        }
        let c = s.get_char(k);
        acc = acc + utf8_width(c);
        k = k + 1;
        proof {
            if k > k0 {
                lemma_byte_offset_strict(s@, k0, k as int);
            }
        }
    }
    proof {
        if k < k0 {
            lemma_byte_offset_strict(s@, k as int, k0);
        }
    }
    k
}

/// How many characters of `s` fit in `width` bytes: all of them when they
/// fit, else those before byte `width`.
pub open spec fn shown_chars(s: Seq<char>, width: int) -> int {
    if byte_len(s) > width {
        choose|k: int| 0 <= k <= s.len() && byte_offset(s, k) == width
    } else {
        s.len() as int
    }
}

/// `n` spaces.
pub open spec fn spaces(n: int) -> Seq<char> {
    Seq::new(n as nat, |i: int| ' ')
}

/// Widget drawing a text input in a bordered box.
pub struct TextInputWidget<'a> {
    pub input: &'a TextInput,
    pub label: &'a str,
    pub focused: bool,
}

impl<'a> TextInputWidget<'a> {
    /// The box's title: ` label `.
    pub fn title(&self) -> (r: String)
        ensures
            r@ == seq![' '] + self.label@ + seq![' '],
    {
        let mut t = String::new();
        crate::text::string_push(&mut t, ' ');
        t.append(self.label);
        crate::text::string_push(&mut t, ' ');
        assert(t@ =~= seq![' '] + self.label@ + seq![' ']);
        t
    }

    /// The tone of the border: the theme's accent when focused.
    pub fn border_tone(&self) -> (r: Tone)
        ensures
            r == (if self.focused { Tone::ThemeAccent } else { Tone::ThemeSurface }),
    {
        if self.focused { Tone::ThemeAccent } else { Tone::ThemeSurface }
    }

    /// The line drawn inside the box `inner`.  Unfocused, the text as far as
    /// it fits; focused, the text before the cursor (as far as it fits), the
    /// character under the cursor highlighted (a space at the end), the rest,
    /// and spaces up to the width.  A text longer than the width must be cut
    /// on a character boundary.
    pub fn pieces(&self, inner: Rect) -> (r: Vec<Piece>)
        requires
            self.input.wf(),
            byte_len(self.input.buffer@) > inner.width ==> is_boundary(self.input.buffer@, inner.width as int),
        ensures
            ({
                let s = self.input.buffer@;
                let w = inner.width as int;
                let ci = self.input.cursor_index();
                let shown = shown_chars(s, w);
                let m = if ci < shown { ci } else { shown };
                let after = if ci < s.len() { s.skip(ci + 1) } else { Seq::empty() };
                let used = byte_offset(s, m) + 1 + byte_len(after);
                &&& (inner.width == 0 || inner.height == 0) ==> r@.len() == 0
                &&& (inner.width > 0 && inner.height > 0 && !self.focused) ==> r@.len() == 1
                    && r@[0].text@ == s.take(shown) && r@[0].tone == Tone::ThemeText
                &&& (inner.width > 0 && inner.height > 0 && self.focused) ==> {
                    &&& r@.len() == (if used < w { 4int } else { 3int })
                    &&& r@[0].text@ == s.take(m) && r@[0].tone == Tone::ThemeText
                    &&& r@[1].text@ == (if ci < s.len() { seq![s[ci]] } else { seq![' '] }) && r@[1].tone == Tone::ThemeCursor
                    &&& r@[2].text@ == after && r@[2].tone == Tone::ThemeText
                    &&& used < w ==> r@[3].text@ == spaces(w - used) && r@[3].tone == Tone::Plain
                }
            }),
    {
        let mut out: Vec<Piece> = Vec::new();
        if inner.width == 0 || inner.height == 0 {
            return out;
        }
        let text = self.input.buffer.as_str();
        let ghost s = text@;
        let total = text.as_bytes().len();
        let n = text.unicode_len();
        proof {
            lemma_byte_offset_ends(s);
            lemma_cursor_index_spec(*self.input);
        }
        let w = inner.width as usize;
        let shown = if total > w { char_index_at(text, w) } else { n };
        proof {
            if total > w {
                lemma_byte_offset_unique(s, shown as int, shown_chars(s, w as int));
            }
        }
        if !self.focused {
            out.push(Piece { text: text.substring_char(0, shown).to_owned(), tone: Tone::ThemeText });
            proof {
                assert(s.subrange(0, shown as int) =~= s.take(shown as int));
            }
            return out;
        }
        let ci = char_index_at(text, self.input.cursor_pos);
        proof {
            lemma_byte_offset_unique(s, ci as int, self.input.cursor_index());
        }
        let m = if ci < shown { ci } else { shown };
        let before = text.substring_char(0, m).to_owned();
        proof {
            assert(s.subrange(0, m as int) =~= s.take(m as int));
        }
        let m_bytes: usize = if ci < shown { self.input.cursor_pos } else { if total > w { w } else { total } };
        let (cursor, after, after_bytes) = if ci < n {
            let c = text.get_char(ci);
            let rest = text.substring_char(ci + 1, n).to_owned();
            proof {
                lemma_char_bytes(s, ci as int);
                assert(s.subrange(ci + 1, n as int) =~= s.skip(ci + 1));
                lemma_encode_split(s, ci + 1);
            }
            let cw = utf8_width(c);
            let mut cs = String::new();
            crate::text::string_push(&mut cs, c);
            (cs, rest, total - (self.input.cursor_pos + cw))
        } else {
            let mut cs = String::new();
            crate::text::string_push(&mut cs, ' ');
            proof {
                lemma_encode_empty();
            }
            (cs, String::new(), 0)
        };
        assert(cursor@ =~= (if ci < s.len() { seq![s[ci as int]] } else { seq![' '] }));
        assert(after_bytes == byte_len(after@));
        out.push(Piece { text: before, tone: Tone::ThemeText });
        out.push(Piece { text: cursor, tone: Tone::ThemeCursor });
        out.push(Piece { text: after, tone: Tone::ThemeText });
        let used: u128 = m_bytes as u128 + 1 + after_bytes as u128;
        if used < w as u128 {
            let pad_len = (w as u128 - used) as usize;
            let mut pad = String::new();
            let mut j: usize = 0;
            while j < pad_len
                invariant
                    j <= pad_len,
                    pad@ =~= spaces(j as int),
                decreases pad_len - j,
            {
                crate::text::string_push(&mut pad, ' ');
                j = j + 1;
            }
            out.push(Piece { text: pad, tone: Tone::Plain });
        }
        out
    }
}

} // verus!
