//! Properties of rendering and encoding that hold for every input.
use vstd::prelude::*;
use crate::json::value_json;
use crate::render::{binary_text, ellipsis, hex_text, null_text, rendered, truncated_text};
use crate::value::TypedValue;

verus! {

/// Every value with an absent payload, of any type, renders as `null` under
/// any width and encodes as JSON `null`.
pub proof fn absent_payload_is_null(v: TypedValue, max_width: Option<usize>)
    requires
        v.is_null_spec(),
    ensures
        rendered(v, max_width) == null_text(),
        value_json(v) == null_text(),
{
}

/// Rendering one value twice under one width gives the same text.
pub proof fn render_is_repeatable(
    v: TypedValue,
    max_width: Option<usize>,
    first: Seq<char>,
    second: Seq<char>,
)
    requires
        first == rendered(v, max_width),
        second == rendered(v, max_width),
    ensures
        first == second,
{
}

/// A text longer than the width less two is cut to exactly the width (for
/// widths of three or more), ending in `...`.
pub proof fn truncated_text_fills_width(s: Seq<char>, w: usize)
    requires
        w >= 3,
        s.len() > w - 2,
    ensures
        truncated_text(s, Some(w)).len() == w,
        truncated_text(s, Some(w)) == s.take(w - 3) + ellipsis(),
{
}

/// Hex text has two characters per byte.
pub proof fn hex_text_len(b: Seq<u8>)
    ensures
        hex_text(b).len() == 2 * b.len(),
    decreases b.len(),
{
    if b.len() > 0 {
        hex_text_len(b.drop_last());
    }
}

/// Bytes more than the width (of four or more) show as the hex of the first
/// `width / 2 - 2` bytes and `...`.
pub proof fn truncated_binary_keeps_prefix(b: Seq<u8>, w: usize)
    requires
        w >= 4,
        b.len() > w,
    ensures
        binary_text(b, Some(w)) == hex_text(b.take(w / 2 - 2)) + ellipsis(),
        binary_text(b, Some(w)).len() == 2 * (w / 2 - 2) + 3,
{
    hex_text_len(b.take(w / 2 - 2));
}

} // verus!
