//! Small string helpers for display.

use vstd::prelude::*;

verus! {

/// The text `s` shortened to at most `max_len` characters, the last of which
/// is an ellipsis when anything was cut.
pub open spec fn truncated(s: Seq<char>, max_len: int) -> Seq<char> {
    if s.len() <= max_len || max_len == 0 {
        s
    } else {
        s.take(max_len - 1) + seq!['…']
    }
}

/// Truncate a string to `max_len` characters, appending "…" if truncated.
pub fn truncate_str(s: &str, max_len: usize) -> (r: String)
    ensures
        r@ == truncated(s@, max_len as int),
{
    let char_count = s.unicode_len();
    if char_count <= max_len || max_len == 0 {
        return s.to_owned();
    }
    let trunc_len = max_len - 1;
    let mut r = s.substring_char(0, trunc_len).to_owned();
    r.append("…");
    proof {
        reveal_strlit("…");
        assert(s@.subrange(0, trunc_len as int) =~= s@.take(trunc_len as int));
    }
    r
}

/// A truncated text is never longer than the limit, unless the limit is zero.
pub proof fn law_truncated_fits(s: Seq<char>, max_len: int)
    requires
        max_len > 0,
    ensures
        truncated(s, max_len).len() <= max_len,
        truncated(s, max_len).len() == (if s.len() <= max_len { s.len() as int } else { max_len }),
{
}

/// Text that already fits is left as it is.
pub proof fn law_truncated_keeps_short_text(s: Seq<char>, max_len: int)
    requires
        s.len() <= max_len,
    ensures
        truncated(s, max_len) == s,
{
}

} // verus!
