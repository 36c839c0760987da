//! The small formatters: numbers with two digits, minutes of the day, and
//! the names of months and weekdays.

use crate::text::{decimal_digits, decimal_string, decimal_text, digit_char};
use vstd::prelude::*;

verus! {

/// The English weekday names, Sunday first.
pub open spec fn weekday_name_text(index: int) -> Seq<char> {
    if index == 0 {
        "Sunday"@
    } else if index == 1 {
        "Monday"@
    } else if index == 2 {
        "Tuesday"@
    } else if index == 3 {
        "Wednesday"@
    } else if index == 4 {
        "Thursday"@
    } else if index == 5 {
        "Friday"@
    } else {
        "Saturday"@
    }
}

/// A numeral filled up with a zero on the left to two characters; longer
/// numerals, and negative ones of two characters, stay as they are.
pub open spec fn two_digit_text(number: int) -> Seq<char> {
    let numeral = decimal_text(number);
    if numeral.len() < 2 {
        seq!['0'] + numeral
    } else {
        numeral
    }
}

/// Writes a number with at least two characters, a zero in front of a
/// single digit.
pub fn fmt_twodigit(number: i64) -> (r: String)
    ensures
        r@ == two_digit_text(number as int),
{
    let numeral = decimal_string(number);
    if numeral.as_str().unicode_len() < 2 {
        let mut out = String::from_str("0");
        out.append(numeral.as_str());
        proof {
            reveal_strlit("0");
            assert("0"@ =~= seq!['0']);
        }
        out
    } else {
        numeral
    }
}

/// The whole hours of a count of minutes, cut towards zero.
pub open spec fn hours_part(mins: int) -> int {
    if mins >= 0 {
        mins / 60
    } else {
        -((-mins) / 60)
    }
}

/// The minutes left over after the whole hours, with the sign of the count.
pub open spec fn minutes_part(mins: int) -> int {
    if mins >= 0 {
        mins % 60
    } else {
        -((-mins) % 60)
    }
}

/// A minute of the day as `HH:MM`.
pub open spec fn mins_text(mins: int) -> Seq<char> {
    two_digit_text(hours_part(mins)) + seq![':'] + two_digit_text(minutes_part(mins))
}

/// The text of `fmt_mins`.
pub open spec fn opt_mins_text(mins_opt: Option<i32>) -> Seq<char> {
    match mins_opt {
        Some(mins) => mins_text(mins as int),
        None => Seq::empty(),
    }
}

/// The text of `fmt_timerange`.
pub open spec fn timerange_text(start_min: Option<i32>, end_min: Option<i32>) -> Seq<char> {
    if start_min is None && end_min is None {
        Seq::empty()
    } else {
        opt_mins_text(start_min) + seq!['-'] + opt_mins_text(end_min)
    }
}

/// Writes a minute of the day as hours and minutes on the 24-hour clock,
/// two digits each; nothing for `None`.
pub fn fmt_mins(mins_opt: Option<i32>) -> (r: String)
    ensures
        r@ == opt_mins_text(mins_opt),
{
    match mins_opt {
        Some(mins) => {
            let wide: i64 = mins as i64;
            let hours: i64 = if wide >= 0 {
                wide / 60
            } else {
                -((-wide) / 60)
            };
            let minutes: i64 = if wide >= 0 {
                wide % 60
            } else {
                -((-wide) % 60)
            };
            let mut out = fmt_twodigit(hours);
            out.append(":");
            out.append(fmt_twodigit(minutes).as_str());
            proof {
                reveal_strlit(":");
                assert(":"@ =~= seq![':']);
            }
            out
        },
        None => String::new(),
    }
}

/// Writes a span of time as `HH:MM-HH:MM`. A missing end leaves its side
/// empty; with neither start nor end the text is empty.
pub fn fmt_timerange(start_min: Option<i32>, end_min: Option<i32>) -> (r: String)
    ensures
        r@ == timerange_text(start_min, end_min),
{
    if start_min.is_none() && end_min.is_none() {
        return String::new();
    }
    let mut out = fmt_mins(start_min);
    out.append("-");
    out.append(fmt_mins(end_min).as_str());
    proof {
        reveal_strlit("-");
        assert("-"@ =~= seq!['-']);
    }
    out
}

/// The English names of the months, January for 1.
pub open spec fn month_name_text(month: int) -> Seq<char> {
    if month == 1 {
        "January"@
    } else if month == 2 {
        "February"@
    } else if month == 3 {
        "March"@
    } else if month == 4 {
        "April"@
    } else if month == 5 {
        "May"@
    } else if month == 6 {
        "June"@
    } else if month == 7 {
        "July"@
    } else if month == 8 {
        "August"@
    } else if month == 9 {
        "September"@
    } else if month == 10 {
        "October"@
    } else if month == 11 {
        "November"@
    } else {
        "December"@
    }
}

/// The English name of a month, counted from 1.
pub fn get_month_name(month: u32) -> (r: String)
    requires
        1 <= month <= 12,
    ensures
        r@ == month_name_text(month as int),
{
    let name = if month == 1 {
        "January"
    } else if month == 2 {
        "February"
    } else if month == 3 {
        "March"
    } else if month == 4 {
        "April"
    } else if month == 5 {
        "May"
    } else if month == 6 {
        "June"
    } else if month == 7 {
        "July"
    } else if month == 8 {
        "August"
    } else if month == 9 {
        "September"
    } else if month == 10 {
        "October"
    } else if month == 11 {
        "November"
    } else {
        "December"
    };
    String::from_str(name)
}

/// A number from 0 to 99 is written with exactly two digits: the tens,
/// then the ones.
pub proof fn lemma_two_digit_text(number: int)
    requires
        0 <= number <= 99,
    ensures
        two_digit_text(number) == seq![digit_char(number / 10), digit_char(number % 10)],
{
    reveal_with_fuel(decimal_digits, 2);
    assert(two_digit_text(number) =~= seq![digit_char(number / 10), digit_char(number % 10)]);
}

} // verus!
