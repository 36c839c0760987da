//! Filling a row up to a width.

use crate::components::inputtext::cells_left;
use vstd::prelude::*;

verus! {

/// A text written `count` times in a row.
pub open spec fn repeated(text: Seq<char>, count: int) -> Seq<char>
    decreases count,
{
    if count <= 0 {
        Seq::empty()
    } else {
        repeated(text, count - 1) + text
    }
}

/// The filling that follows `taken_up` cells in a row of `total_width`:
/// `ch` once for each cell that is left, and nothing where none is.
pub fn pad_characters(total_width: u16, taken_up: u16, ch: &str) -> (r: String)
    ensures
        r@ == repeated(ch@, cells_left(total_width, taken_up as int)),
{
    let mut out = String::new();
    let mut i: u16 = taken_up;
    while i < total_width
        invariant
            taken_up <= i,
            i <= total_width || i == taken_up,
            out@ == repeated(ch@, i - taken_up),
        decreases total_width - i,
    {
        out.append(ch);
        i += 1;
    }
    out
}

/// A text filled up to a width: the text, then `ch` once for each cell that
/// the text leaves of `total_width`. A text that is wider stays as it is.
pub fn padded_text(text: &str, total_width: u16, ch: &str) -> (r: String)
    ensures
        r@ == text@ + repeated(ch@, cells_left(total_width, text@.len() as int)),
{
    let len = text.unicode_len();
    let taken_up: u16 = if len >= total_width as usize {
        total_width
    } else {
        len as u16
    };
    String::from_str(text).concat(pad_characters(total_width, taken_up, ch).as_str())
}

} // verus!
