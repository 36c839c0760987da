//! A line of text under edit.

use crate::keys::{KeyCode, KeyInfo, KeyModifiers};
use crate::state::{TextInputState, TextInputView};
use crate::styles::Styles;
use crate::text::{chars_of, string_of};
use vstd::prelude::*;
use vstd::utf8::{encode_scalar, encode_utf8};

verus! {

/// How a field shows its text.
#[derive(Clone, Copy, Debug, PartialEq, Eq, Structural)]
pub enum InputMode {
    Normal,
    Password,
}

/// The first character of the upper-case form that `char::to_uppercase`
/// gives for a character.
pub uninterp spec fn uppercase_start(c: char) -> Option<char>;

/// `char::to_uppercase`, of whose characters the first is taken: the
/// upper-case form of a character as Unicode's tables have it.
#[verifier::external_body]
fn to_uppercase_start(c: char) -> (r: Option<char>)
    ensures
        r == uppercase_start(c),
{
    c.to_uppercase().next()
}

/// The character that shift and a character key put in: the start of the
/// character's upper-case form, a blank where it has none.
pub open spec fn shifted(c: char) -> char {
    match uppercase_start(c) {
        Some(upper) => upper,
        None => ' ',
    }
}

/// The line after `c` was put in at the cursor.
pub open spec fn with_char(line: TextInputView, c: char) -> TextInputView {
    TextInputView {
        cursor_pos: (line.cursor_pos + 1) as usize,
        contents: line.contents.insert(line.cursor_pos as int, c),
    }
}

/// The line after the character before the cursor was taken out.
pub open spec fn with_backspace(line: TextInputView) -> TextInputView {
    if line.cursor_pos == 0 {
        line
    } else {
        TextInputView {
            cursor_pos: (line.cursor_pos - 1) as usize,
            contents: line.contents.remove(line.cursor_pos - 1),
        }
    }
}

/// The line after the character under the cursor was taken out.
pub open spec fn with_delete(line: TextInputView) -> TextInputView {
    if line.cursor_pos < line.contents.len() {
        TextInputView { contents: line.contents.remove(line.cursor_pos as int), ..line }
    } else {
        line
    }
}

/// The line with the cursor at `cursor_pos`.
pub open spec fn with_cursor(line: TextInputView, cursor_pos: int) -> TextInputView {
    TextInputView { cursor_pos: cursor_pos as usize, ..line }
}

/// Going left from `i` over blanks: the position of the nearest character
/// at or before `i` that is no blank, -1 where there is none.
pub open spec fn skip_blanks_back(text: Seq<char>, i: int) -> int
    decreases i + 1,
{
    if 0 <= i < text.len() && text[i] == ' ' {
        skip_blanks_back(text, i - 1)
    } else {
        i
    }
}

/// Going left from `i` over a word: the position of the nearest blank at or
/// before `i`, -1 where there is none.
pub open spec fn skip_word_back(text: Seq<char>, i: int) -> int
    decreases i + 1,
{
    if 0 <= i < text.len() && text[i] != ' ' {
        skip_word_back(text, i - 1)
    } else {
        i
    }
}

/// The number of bytes that a text takes in UTF-8.
pub open spec fn byte_len(text: Seq<char>) -> int {
    encode_utf8(text).len() as int
}

/// A text takes at least one byte for each of its characters.
pub proof fn lemma_byte_len_covers_chars(text: Seq<char>)
    ensures
        byte_len(text) >= text.len(),
    decreases text.len(),
{
    if text.len() > 0 {
        lemma_byte_len_covers_chars(text.drop_first());
        assert(encode_scalar(text[0] as u32).len() >= 1);
    }
}

/// The line after the word at the cursor was taken out. The stretch that
/// goes starts at the character under the cursor, or at the last one where
/// the cursor stands at the end, and runs to the left: over blanks, then over
/// the word before them, up to the blank before that word, which stays. The
/// cursor moves left by the number of bytes of the old text less the number
/// of characters of the new one, and not past the start.
pub open spec fn with_word_deleted(line: TextInputView) -> TextInputView {
    if line.cursor_pos == 0 || line.contents.len() == 0 {
        line
    } else {
        let last = if line.cursor_pos < line.contents.len() {
            line.cursor_pos as int
        } else {
            line.contents.len() - 1
        };
        let kept_before = skip_word_back(line.contents, skip_blanks_back(line.contents, last)) + 1;
        let contents = line.contents.subrange(0, kept_before) + line.contents.subrange(
            last + 1,
            line.contents.len() as int,
        );
        let moved = if byte_len(line.contents) >= contents.len() {
            byte_len(line.contents) - contents.len()
        } else {
            0
        };
        let cursor_pos = if line.cursor_pos >= moved {
            line.cursor_pos - moved
        } else {
            0
        };
        TextInputView { cursor_pos: cursor_pos as usize, contents }
    }
}

/// What a key does to a line. Without a modifier: a character is put in at
/// the cursor, backspace and delete take one out, the arrows and home and end
/// move the cursor. With shift: a character is put in in upper case, and
/// backspace works as without. With control: backspace and `w` take out the
/// word at the cursor. Every other key leaves the line as it is.
pub open spec fn line_after_key(line: TextInputView, key: KeyInfo) -> TextInputView {
    match key.modifiers {
        KeyModifiers::Plain => match key.code {
            KeyCode::Char(c) => with_char(line, c),
            KeyCode::Backspace => with_backspace(line),
            KeyCode::Delete => with_delete(line),
            KeyCode::Left => with_cursor(
                line,
                if line.cursor_pos == 0 {
                    0
                } else {
                    line.cursor_pos - 1
                },
            ),
            KeyCode::Right => with_cursor(
                line,
                if line.cursor_pos == line.contents.len() {
                    line.cursor_pos as int
                } else {
                    line.cursor_pos + 1
                },
            ),
            KeyCode::End => with_cursor(line, line.contents.len() as int),
            KeyCode::Home => with_cursor(line, 0),
            _ => line,
        },
        KeyModifiers::Shift => match key.code {
            KeyCode::Char(c) => with_char(line, shifted(c)),
            KeyCode::Backspace => with_backspace(line),
            _ => line,
        },
        KeyModifiers::Control => match key.code {
            KeyCode::Backspace => with_word_deleted(line),
            KeyCode::Char(c) => if c == 'w' {
                with_word_deleted(line)
            } else {
                line
            },
            _ => line,
        },
        KeyModifiers::Other => line,
    }
}

/// Puts a character in at the cursor.
pub fn insert_char(currstate: &TextInputState, c: char) -> (r: TextInputState)
    requires
        currstate.wf(),
    ensures
        r@ == with_char(currstate@, c),
        r.wf(),
{
    let mut chars = chars_of(currstate.contents.as_str());
    chars.insert(currstate.cursor_pos, c);
    let grown = chars.len();
    TextInputState { contents: string_of(chars.as_slice()), cursor_pos: currstate.cursor_pos + 1 }
}

/// Takes out the character before the cursor.
pub fn backspace(currstate: &TextInputState) -> (r: TextInputState)
    requires
        currstate.wf(),
    ensures
        r@ == with_backspace(currstate@),
        r.wf(),
{
    if currstate.cursor_pos == 0 {
        return currstate.clone();
    }
    let mut chars = chars_of(currstate.contents.as_str());
    chars.remove(currstate.cursor_pos - 1);
    TextInputState { contents: string_of(chars.as_slice()), cursor_pos: currstate.cursor_pos - 1 }
}

/// Takes out the word at the cursor.
pub fn delete_word(currstate: &TextInputState) -> (r: TextInputState)
    requires
        currstate.wf(),
    ensures
        r@ == with_word_deleted(currstate@),
        r.wf(),
{
    let chars = chars_of(currstate.contents.as_str());
    let cursor_pos = currstate.cursor_pos;
    if cursor_pos == 0 || chars.len() == 0 {
        return currstate.clone();
    }
    let last = if cursor_pos < chars.len() {
        cursor_pos
    } else {
        chars.len() - 1
    };
    let mut kept_before = last + 1;
    while kept_before > 0 && chars[kept_before - 1] == ' '
        invariant
            kept_before <= last + 1,
            last < chars@.len(),
            skip_blanks_back(chars@, last as int) == skip_blanks_back(chars@, kept_before - 1),
        decreases kept_before,
    {
        kept_before -= 1;
    }
    while kept_before > 0 && chars[kept_before - 1] != ' '
        invariant
            kept_before <= last + 1,
            last < chars@.len(),
            skip_word_back(chars@, skip_blanks_back(chars@, last as int)) == skip_word_back(
                chars@,
                kept_before - 1,
            ),
        decreases kept_before,
    {
        kept_before -= 1;
    }
    assert(kept_before == skip_word_back(chars@, skip_blanks_back(chars@, last as int)) + 1);
    let mut kept: Vec<char> = Vec::new();
    let mut i: usize = 0;
    while i < kept_before
        invariant
            i <= kept_before <= chars@.len(),
            kept@ == chars@.subrange(0, i as int),
        decreases kept_before - i,
    {
        kept.push(chars[i]);
        i += 1;
        assert(kept@ =~= chars@.subrange(0, i as int));
    }
    let mut i: usize = last + 1;
    while i < chars.len()
        invariant
            last + 1 <= i <= chars@.len(),
            kept_before <= last + 1,
            kept@ == chars@.subrange(0, kept_before as int) + chars@.subrange(
                last + 1,
                i as int,
            ),
        decreases chars.len() - i,
    {
        kept.push(chars[i]);
        i += 1;
        assert(kept@ =~= chars@.subrange(0, kept_before as int) + chars@.subrange(
            last + 1,
            i as int,
        ));
    }
    let bytes = currstate.contents.as_str().as_bytes().len();
    let moved = if bytes >= kept.len() {
        bytes - kept.len()
    } else {
        0
    };
    let new_cursor_pos = if cursor_pos >= moved {
        cursor_pos - moved
    } else {
        0
    };
    proof {
        lemma_byte_len_covers_chars(chars@);
    }
    TextInputState { contents: string_of(kept.as_slice()), cursor_pos: new_cursor_pos }
}

/// What a key does to a line of text. Keys that move between fields, submit
/// or cancel are the caller's to take first.
pub fn handle_input(currstate: &TextInputState, key: &KeyInfo) -> (r: TextInputState)
    requires
        currstate.wf(),
    ensures
        r@ == line_after_key(currstate@, *key),
        r.wf(),
{
    let cursor_pos = currstate.cursor_pos;
    match key.modifiers {
        KeyModifiers::Plain => match key.code {
            KeyCode::Char(c) => insert_char(currstate, c),
            KeyCode::Backspace => backspace(currstate),
            KeyCode::Delete => {
                let mut chars = chars_of(currstate.contents.as_str());
                if cursor_pos < chars.len() {
                    chars.remove(cursor_pos);
                }
                TextInputState { contents: string_of(chars.as_slice()), cursor_pos }
            },
            KeyCode::Left => {
                let new_cursor_pos = if cursor_pos == 0 {
                    0
                } else {
                    cursor_pos - 1
                };
                TextInputState { cursor_pos: new_cursor_pos, contents: currstate.contents.clone() }
            },
            KeyCode::Right => {
                let new_cursor_pos = if cursor_pos == currstate.contents.as_str().unicode_len() {
                    cursor_pos
                } else {
                    cursor_pos + 1
                };
                TextInputState { cursor_pos: new_cursor_pos, contents: currstate.contents.clone() }
            },
            KeyCode::End => TextInputState {
                cursor_pos: currstate.contents.as_str().unicode_len(),
                contents: currstate.contents.clone(),
            },
            KeyCode::Home => TextInputState { cursor_pos: 0, contents: currstate.contents.clone() },
            _ => currstate.clone(),
        },
        KeyModifiers::Shift => match key.code {
            KeyCode::Char(c) => {
                let upper = match to_uppercase_start(c) {
                    Some(upper) => upper,
                    None => ' ',
                };
                insert_char(currstate, upper)
            },
            KeyCode::Backspace => backspace(currstate),
            _ => currstate.clone(),
        },
        KeyModifiers::Control => match key.code {
            KeyCode::Backspace => delete_word(currstate),
            KeyCode::Char(c) => if c == 'w' {
                delete_word(currstate)
            } else {
                currstate.clone()
            },
            _ => currstate.clone(),
        },
        KeyModifiers::Other => currstate.clone(),
    }
}

/// The width that a field is drawn with where its placing names none.
pub const DEFAULT_FIELD_WIDTH: u16 = 30;

/// The blanks between a field's name and its text where its placing names
/// no number.
pub const DEFAULT_GAP: u16 = 1;

/// The rows that a wrapped field is drawn with where its placing names no
/// number.
pub const DEFAULT_FIELD_HEIGHT: u16 = 2;

/// The character that fills the cells of a field behind its text.
pub const EMPTY_CELL: char = '_';

/// The character that stands for each character of a password.
pub const PASSWORD_CELL: char = '*';

/// What is drawn for a character of a field's text.
pub open spec fn shown(c: char, mode: InputMode) -> char {
    match mode {
        InputMode::Normal => c,
        InputMode::Password => PASSWORD_CELL,
    }
}

/// What is drawn for a character of a field's text: the character itself,
/// or a star in a password.
pub fn shown_char(c: char, mode: InputMode) -> (r: char)
    ensures
        r == shown(c, mode),
{
    match mode {
        InputMode::Normal => c,
        InputMode::Password => PASSWORD_CELL,
    }
}

/// What is drawn for a field's text, character by character.
pub fn shown_text(contents: &str, mode: InputMode) -> (r: String)
    ensures
        r@ == contents@.map_values(|c: char| shown(c, mode)),
{
    let chars = chars_of(contents);
    let mut out: Vec<char> = Vec::new();
    let mut i: usize = 0;
    while i < chars.len()
        invariant
            i <= chars@.len(),
            out@ == chars@.subrange(0, i as int).map_values(|c: char| shown(c, mode)),
        decreases chars.len() - i,
    {
        out.push(shown_char(chars[i], mode));
        i += 1;
        assert(out@ =~= chars@.subrange(0, i as int).map_values(|c: char| shown(c, mode)));
    }
    assert(chars@.subrange(0, chars@.len() as int) =~= chars@);
    string_of(out.as_slice())
}

/// The cells that a field's name takes with its colon and the gap behind
/// it, and no more than a `u16` holds.
pub open spec fn label_cells(label_len: int, gap: Option<u16>) -> int {
    let cells = label_len + 1 + match gap {
        Some(blanks) => blanks as int,
        None => DEFAULT_GAP as int,
    };
    if cells > u16::MAX {
        u16::MAX as int
    } else {
        cells
    }
}

/// The cells that a field's name takes with its colon and the gap behind
/// it.
pub fn label_width(label: &str, styles: &Styles) -> (r: u16)
    ensures
        r == label_cells(label@.len() as int, styles.gap),
{
    let gap: u16 = match styles.gap {
        Some(blanks) => blanks,
        None => DEFAULT_GAP,
    };
    let len = label.unicode_len();
    if len >= 0xFFFF {
        return 0xFFFF;
    }
    let cells: u32 = len as u32 + 1 + gap as u32;
    if cells > 0xFFFF {
        0xFFFF
    } else {
        cells as u16
    }
}

/// The cells that are left to fill when `taken_up` of `total_width` cells
/// are drawn.
pub open spec fn cells_left(total_width: u16, taken_up: int) -> int {
    if taken_up < total_width {
        total_width - taken_up
    } else {
        0
    }
}

/// How many filling characters follow the text of a field of one row: what
/// the field's width leaves after its name and its text.
pub fn field_padding(label: &str, currstate: &TextInputState, styles: &Styles) -> (r: u16)
    ensures
        r == cells_left(
            match styles.width {
                Some(width) => width,
                None => DEFAULT_FIELD_WIDTH,
            },
            label_cells(label@.len() as int, styles.gap) + currstate.contents@.len(),
        ),
{
    let total_width: u16 = match styles.width {
        Some(width) => width,
        None => DEFAULT_FIELD_WIDTH,
    };
    let label_cells = label_width(label, styles);
    let len = currstate.contents.as_str().unicode_len();
    if len >= total_width as usize || label_cells >= total_width {
        return 0;
    }
    let taken: u32 = label_cells as u32 + len as u32;
    if taken >= total_width as u32 {
        0
    } else {
        (total_width as u32 - taken) as u16
    }
}

/// Whether the rest of the row is cleared behind a field: always, unless
/// its placing says that it is not the last in its row.
pub fn clears_rest_of_line(styles: &Styles) -> (r: bool)
    ensures
        r == (styles.last_in_row != Some(false)),
{
    match styles.last_in_row {
        Some(is_last) => is_last,
        None => true,
    }
}

/// What is drawn under the cursor of a field that has the focus: the
/// character of the text there, as it stands, and the filling character
/// behind the text.
pub fn cursor_char(currstate: &TextInputState) -> (r: char)
    ensures
        r == if currstate.cursor_pos < currstate.contents@.len() {
            currstate.contents@[currstate.cursor_pos as int]
        } else {
            EMPTY_CELL
        },
{
    let contents = currstate.contents.as_str();
    if currstate.cursor_pos < contents.unicode_len() {
        contents.get_char(currstate.cursor_pos)
    } else {
        EMPTY_CELL
    }
}

/// The cells of one row of a wrapped field: name, colon and gap take theirs
/// of the field's width, and one more stays free.
pub fn region_width(label: &str, styles: &Styles) -> (r: u16)
    ensures
        r == cells_left(
            match styles.width {
                Some(width) => width,
                None => DEFAULT_FIELD_WIDTH,
            },
            label_cells(label@.len() as int, styles.gap) + 1,
        ),
{
    let total_width: u16 = match styles.width {
        Some(width) => width,
        None => DEFAULT_FIELD_WIDTH,
    };
    let label_cells = label_width(label, styles);
    if label_cells >= total_width {
        0
    } else {
        total_width - label_cells - 1
    }
}

/// What is drawn in cell `index` of a wrapped field, the cells counted row
/// by row: the character of the text there, as `shown` has it, and the
/// filling character behind the text.
pub fn wrapped_cell(contents: &str, index: usize, mode: InputMode) -> (r: char)
    ensures
        r == if index < contents@.len() {
            shown(contents@[index as int], mode)
        } else {
            EMPTY_CELL
        },
{
    if index < contents.unicode_len() {
        shown_char(contents.get_char(index), mode)
    } else {
        EMPTY_CELL
    }
}

} // verus!
