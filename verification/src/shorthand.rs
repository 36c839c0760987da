//! Times of day as people type them: `3pm`, `15:45`, ` 11 : 30 AM `.

use crate::format::{lemma_two_digit_text, mins_text};
use crate::text::{chars_of, digit_char, is_decimal_digit};
use vstd::prelude::*;

verus! {

/// Minutes in a day.
pub const MINUTES_PER_DAY: i32 = 1440;

/// How the hour of a shorthand is to be read.
#[derive(Clone, Copy, Debug, PartialEq, Eq, Structural)]
pub enum PeriodType {
    AM,
    PM,
    TwentyFourHour,
}

/// What a well-shaped shorthand says, before any check of its numbers.
pub struct ShorthandFields {
    pub hour: int,
    pub minute: int,
    pub period: PeriodType,
}

/// White space: the characters with Unicode's property of that name.
pub open spec fn is_space(c: char) -> bool {
    let code = c as u32;
    ||| 0x09 <= code <= 0x0D
    ||| code == 0x20
    ||| code == 0x85
    ||| code == 0xA0
    ||| code == 0x1680
    ||| 0x2000 <= code <= 0x200A
    ||| code == 0x2028
    ||| code == 0x2029
    ||| code == 0x202F
    ||| code == 0x205F
    ||| code == 0x3000
}

/// The number that a digit writes.
pub open spec fn digit_value(c: char) -> int {
    c as int - '0' as int
}

/// The text with its white space taken out.
pub open spec fn without_spaces(text: Seq<char>) -> Seq<char>
    decreases text.len(),
{
    if text.len() == 0 {
        Seq::empty()
    } else if is_space(text.last()) {
        without_spaces(text.drop_last())
    } else {
        without_spaces(text.drop_last()).push(text.last())
    }
}

/// How many digits stand at `from`: none, one or two. A third is not
/// counted.
pub open spec fn digit_run(text: Seq<char>, from: int) -> int {
    if 0 <= from < text.len() && is_decimal_digit(text[from]) {
        if from + 1 < text.len() && is_decimal_digit(text[from + 1]) {
            2
        } else {
            1
        }
    } else {
        0
    }
}

/// The number that the one or two digits at `from` write.
pub open spec fn run_value(text: Seq<char>, from: int, count: int) -> int {
    if count == 2 {
        10 * digit_value(text[from]) + digit_value(text[from + 1])
    } else if count == 1 {
        digit_value(text[from])
    } else {
        0
    }
}

/// What ends a shorthand at `from`: nothing, `am` or `pm` in either case.
/// `None` for anything else.
pub open spec fn period_at(text: Seq<char>, from: int) -> Option<PeriodType> {
    if from == text.len() {
        Some(PeriodType::TwentyFourHour)
    } else if from + 2 == text.len() && (text[from + 1] == 'm' || text[from + 1] == 'M') {
        if text[from] == 'a' || text[from] == 'A' {
            Some(PeriodType::AM)
        } else if text[from] == 'p' || text[from] == 'P' {
            Some(PeriodType::PM)
        } else {
            None
        }
    } else {
        None
    }
}

/// Reads a text without white space against the shape of a shorthand: one
/// or two digits for the hour; then, if a colon follows, one or two digits
/// for the minute; then `am` or `pm` or nothing; then the end. `None` for a
/// text of any other shape.
pub open spec fn shorthand_fields(text: Seq<char>) -> Option<ShorthandFields> {
    let hour_len = digit_run(text, 0);
    let has_minute = hour_len < text.len() && text[hour_len] == ':';
    let minute_len = if has_minute {
        digit_run(text, hour_len + 1)
    } else {
        0
    };
    let after_minute = if has_minute {
        hour_len + 1 + minute_len
    } else {
        hour_len
    };
    if hour_len == 0 || (has_minute && minute_len == 0) {
        None
    } else {
        match period_at(text, after_minute) {
            Some(period) => Some(
                ShorthandFields {
                    hour: run_value(text, 0, hour_len),
                    minute: run_value(text, hour_len + 1, minute_len),
                    period,
                },
            ),
            None => None,
        }
    }
}

/// The hour on the 24-hour clock: twelve in the morning is hour 0, the
/// afternoon hours but twelve are twelve more, and an hour without `am` or
/// `pm` stands as it is.
pub open spec fn hour_of_day(hour: int, period: PeriodType) -> int {
    match period {
        PeriodType::AM => if hour == 12 {
            0
        } else {
            hour
        },
        PeriodType::PM => if hour != 12 {
            hour + 12
        } else {
            hour
        },
        PeriodType::TwentyFourHour => hour,
    }
}

/// The minute of the day that the fields name. `None` where the minute is
/// 60 or more, where an hour with `am` or `pm` is not one of 1 to 12, and
/// where the time would lie outside the day.
pub open spec fn fields_minutes(fields: ShorthandFields) -> Option<int> {
    let total = hour_of_day(fields.hour, fields.period) * 60 + fields.minute;
    if fields.minute >= 60 {
        None
    } else if fields.period != PeriodType::TwentyFourHour && !(1 <= fields.hour <= 12) {
        None
    } else if total < 0 || total >= MINUTES_PER_DAY {
        None
    } else {
        Some(total)
    }
}

/// The minute of the day that a shorthand names, `None` where it names
/// none: white space anywhere is passed over, what is left must have the
/// shape of `shorthand_fields`, and its numbers must pass `fields_minutes`.
pub open spec fn shorthand_minutes(text: Seq<char>) -> Option<int> {
    match shorthand_fields(without_spaces(text)) {
        Some(fields) => fields_minutes(fields),
        None => None,
    }
}

/// Tests `is_space`.
pub fn is_space_char(c: char) -> (r: bool)
    ensures
        r == is_space(c),
{
    let code: u32 = c as u32;
    (0x09 <= code && code <= 0x0D) || code == 0x20 || code == 0x85 || code == 0xA0 || code
        == 0x1680 || (0x2000 <= code && code <= 0x200A) || code == 0x2028 || code == 0x2029
        || code == 0x202F || code == 0x205F || code == 0x3000
}

/// The characters of a text that are no white space.
pub fn strip_spaces(s: &str) -> (r: Vec<char>)
    ensures
        r@ == without_spaces(s@),
{
    let chars = chars_of(s);
    let mut kept: Vec<char> = Vec::new();
    let mut i: usize = 0;
    while i < chars.len()
        invariant
            i <= chars.len(),
            kept@ == without_spaces(chars@.subrange(0, i as int)),
        decreases chars.len() - i,
    {
        let c = chars[i];
        assert(chars@.subrange(0, i + 1).drop_last() =~= chars@.subrange(0, i as int));
        if !is_space_char(c) {
            kept.push(c);
        }
        i += 1;
    }
    assert(chars@.subrange(0, chars.len() as int) =~= chars@);
    kept
}

fn count_digits(text: &Vec<char>, from: usize) -> (r: usize)
    requires
        from <= text.len(),
    ensures
        r == digit_run(text@, from as int),
{
    if from < text.len() && '0' <= text[from] && text[from] <= '9' {
        if from + 1 < text.len() && '0' <= text[from + 1] && text[from + 1] <= '9' {
            2
        } else {
            1
        }
    } else {
        0
    }
}

fn read_digits(text: &Vec<char>, from: usize, count: usize) -> (r: i32)
    requires
        count == digit_run(text@, from as int),
        from + count <= text.len(),
    ensures
        r == run_value(text@, from as int, count as int),
        0 <= r <= 99,
{
    if count == 2 {
        10 * (text[from] as u32 - 48) as i32 + (text[from + 1] as u32 - 48) as i32
    } else if count == 1 {
        (text[from] as u32 - 48) as i32
    } else {
        0
    }
}

fn read_period(text: &Vec<char>, from: usize) -> (r: Option<PeriodType>)
    requires
        from <= text.len(),
    ensures
        r == period_at(text@, from as int),
{
    if from == text.len() {
        Some(PeriodType::TwentyFourHour)
    } else if text.len() - from == 2 && (text[from + 1] == 'm' || text[from + 1] == 'M') {
        if text[from] == 'a' || text[from] == 'A' {
            Some(PeriodType::AM)
        } else if text[from] == 'p' || text[from] == 'P' {
            Some(PeriodType::PM)
        } else {
            None
        }
    } else {
        None
    }
}

/// Reads a shorthand time and gives the minute of the day that it names:
/// `3` and `3am` are 180, `3 PM` is 900, `15:45` is 945, `12am` is 0. `None`
/// for what is no shorthand (`abcd`, `123`), for a minute of 60 or more
/// (`1:62`), for an hour past the day (`24`), and for an hour of the 24-hour
/// clock with `am` or `pm` behind it (`15pm`, `0am`).
pub fn time_shorthand_to_mins(s: &str) -> (r: Option<i32>)
    ensures
        match r {
            Some(mins) => shorthand_minutes(s@) == Some(mins as int) && 0 <= mins
                < MINUTES_PER_DAY,
            None => shorthand_minutes(s@) is None,
        },
{
    let text = strip_spaces(s);
    let hour_len = count_digits(&text, 0);
    if hour_len == 0 {
        return None;
    }
    let has_minute = hour_len < text.len() && text[hour_len] == ':';
    let minute_len = if has_minute {
        count_digits(&text, hour_len + 1)
    } else {
        0
    };
    if has_minute && minute_len == 0 {
        return None;
    }
    let after_minute = if has_minute {
        hour_len + 1 + minute_len
    } else {
        hour_len
    };
    let period = match read_period(&text, after_minute) {
        Some(period) => period,
        None => {
            return None;
        },
    };
    let hours = read_digits(&text, 0, hour_len);
    let minutes = if has_minute {
        read_digits(&text, hour_len + 1, minute_len)
    } else {
        0
    };
    if minutes >= 60 {
        return None;
    }
    let hours = match period {
        PeriodType::AM => {
            if hours < 1 || hours > 12 {
                return None;
            }
            if hours == 12 {
                0
            } else {
                hours
            }
        },
        PeriodType::PM => {
            if hours < 1 || hours > 12 {
                return None;
            }
            if hours != 12 {
                hours + 12
            } else {
                hours
            }
        },
        PeriodType::TwentyFourHour => hours,
    };
    let total_minutes = hours * 60 + minutes;
    if total_minutes < 0 || total_minutes >= MINUTES_PER_DAY {
        None
    } else {
        Some(total_minutes)
    }
}

/// What `fmt_mins` writes for a minute of the day, the shorthand reads back
/// as that minute.
pub proof fn lemma_shorthand_reads_formatted_minutes(mins: int)
    requires
        0 <= mins < MINUTES_PER_DAY,
    ensures
        shorthand_minutes(mins_text(mins)) == Some(mins),
{
    let hours = mins / 60;
    let minutes = mins % 60;
    lemma_two_digit_text(hours);
    lemma_two_digit_text(minutes);
    let text = seq![
        digit_char(hours / 10),
        digit_char(hours % 10),
        ':',
        digit_char(minutes / 10),
        digit_char(minutes % 10),
    ];
    assert(mins_text(mins) =~= text);
    reveal_with_fuel(without_spaces, 6);
    assert(text.drop_last() =~= text.subrange(0, 4));
    assert(text.subrange(0, 4).drop_last() =~= text.subrange(0, 3));
    assert(text.subrange(0, 3).drop_last() =~= text.subrange(0, 2));
    assert(text.subrange(0, 2).drop_last() =~= text.subrange(0, 1));
    assert(text.subrange(0, 1).drop_last() =~= Seq::<char>::empty());
    assert(without_spaces(text.subrange(0, 1)) =~= text.subrange(0, 1));
    assert(without_spaces(text.subrange(0, 2)) =~= text.subrange(0, 2));
    assert(without_spaces(text.subrange(0, 3)) =~= text.subrange(0, 3));
    assert(without_spaces(text.subrange(0, 4)) =~= text.subrange(0, 4));
    assert(without_spaces(text) =~= text);
}

} // verus!
