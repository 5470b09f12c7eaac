//! The fixed show-time grammar `YYYY-MM-DDTHH:MM:SS`: its shape, the values
//! of its fields, calendar validity, parsing, and the short display form
//! `MM/DD HH:MM`.
use vstd::prelude::*;
use vstd::utf8::is_ascii_chars;

verus! {

/// True of a decimal digit character.
pub open spec fn is_digit_char(c: char) -> bool {
    '0' <= c && c <= '9'
}

/// The numeric value of a digit character.
pub open spec fn digit_val(c: char) -> int {
    c as int - '0' as int
}

/// The value of the two digits of `s` starting at `i`.
pub open spec fn num2(s: Seq<char>, i: int) -> int {
    10 * digit_val(s[i]) + digit_val(s[i + 1])
}

/// The value of the four digits of `s` starting at `i`.
pub open spec fn num4(s: Seq<char>, i: int) -> int {
    1000 * digit_val(s[i]) + 100 * digit_val(s[i + 1]) + 10 * digit_val(s[i + 2]) + digit_val(
        s[i + 3],
    )
}

/// The textual shape `YYYY-MM-DDTHH:MM:SS`: nineteen characters, separators
/// in their fixed places, digits everywhere else.
pub open spec fn stamp_shape(s: Seq<char>) -> bool {
    &&& s.len() == 19
    &&& s[4] == '-'
    &&& s[7] == '-'
    &&& s[10] == 'T'
    &&& s[13] == ':'
    &&& s[16] == ':'
    &&& forall|i: int|
        0 <= i < 19 && i != 4 && i != 7 && i != 10 && i != 13 && i != 16 ==> is_digit_char(
            #[trigger] s[i],
        )
}

pub open spec fn year_of(s: Seq<char>) -> int {
    num4(s, 0)
}

pub open spec fn month_of(s: Seq<char>) -> int {
    num2(s, 5)
}

pub open spec fn day_of(s: Seq<char>) -> int {
    num2(s, 8)
}

pub open spec fn hour_of(s: Seq<char>) -> int {
    num2(s, 11)
}

pub open spec fn minute_of(s: Seq<char>) -> int {
    num2(s, 14)
}

pub open spec fn second_of(s: Seq<char>) -> int {
    num2(s, 17)
}

pub open spec fn is_leap_year(y: int) -> bool {
    y % 4 == 0 && (y % 100 != 0 || y % 400 == 0)
}

pub open spec fn days_in_month(y: int, m: int) -> int {
    if m == 2 {
        if is_leap_year(y) {
            29
        } else {
            28
        }
    } else if m == 4 || m == 6 || m == 9 || m == 11 {
        30
    } else {
        31
    }
}

/// Calendar validity of the six fields of a date-time.
pub open spec fn fields_valid(y: int, mo: int, d: int, h: int, mi: int, s: int) -> bool {
    &&& 1 <= mo <= 12
    &&& 1 <= d <= days_in_month(y, mo)
    &&& 0 <= h <= 23
    &&& 0 <= mi <= 59
    &&& 0 <= s <= 59
}

/// A show-time text is valid when it has the fixed shape and its fields form
/// a real calendar date-time.
pub open spec fn valid_show_time(s: Seq<char>) -> bool {
    &&& stamp_shape(s)
    &&& fields_valid(year_of(s), month_of(s), day_of(s), hour_of(s), minute_of(s), second_of(s))
}

/// A parsed show time: the six fields of a local wall-clock date-time.
#[derive(Clone, Copy, PartialEq, Eq, Structural, Debug)]
pub struct Stamp {
    pub year: i32,
    pub month: u32,
    pub day: u32,
    pub hour: u32,
    pub minute: u32,
    pub second: u32,
}

impl Stamp {
    /// A well-formed stamp holds a real calendar date-time with a four-digit
    /// year.
    pub open spec fn wf(self) -> bool {
        &&& 0 <= self.year <= 9999
        &&& fields_valid(
            self.year as int,
            self.month as int,
            self.day as int,
            self.hour as int,
            self.minute as int,
            self.second as int,
        )
    }

    /// The stamp holding the fields of a valid show-time text.
    pub open spec fn of_text(s: Seq<char>) -> Stamp {
        Stamp {
            year: year_of(s) as i32,
            month: month_of(s) as u32,
            day: day_of(s) as u32,
            hour: hour_of(s) as u32,
            minute: minute_of(s) as u32,
            second: second_of(s) as u32,
        }
    }
}

/// A text of the fixed shape holds only ASCII characters.
pub proof fn lemma_shape_ascii(s: Seq<char>)
    requires
        stamp_shape(s),
    ensures
        is_ascii_chars(s),
{
    assert forall|i: int| 0 <= i < s.len() implies '\0' <= #[trigger] s[i] <= '\u{7f}' by {
        if i != 4 && i != 7 && i != 10 && i != 13 && i != 16 {
            assert(is_digit_char(s[i]));
        }
    }
}

/// Reads the two digits of `s` at `i`, refusing any other characters.
fn two_digits(s: &str, i: usize) -> (r: Option<u32>)
    requires
        s.is_ascii(),
        i + 2 <= s@.len(),
        s@.len() <= usize::MAX,
    ensures
        r is Some <==> is_digit_char(s@[i as int]) && is_digit_char(s@[i as int + 1]),
        r matches Some(v) ==> v == num2(s@, i as int),
{
    let b0 = s.get_ascii(i);
    let b1 = s.get_ascii(i + 1);
    if 48 <= b0 && b0 <= 57 && 48 <= b1 && b1 <= 57 {
        Some(((b0 - 48) as u32) * 10 + ((b1 - 48) as u32))
    } else {
        None
    }
}

/// Reads the four digits of `s` at `i`, refusing any other characters.
fn four_digits(s: &str, i: usize) -> (r: Option<u32>)
    requires
        s.is_ascii(),
        i + 4 <= s@.len(),
        s@.len() <= usize::MAX,
    ensures
        r is Some <==> (is_digit_char(s@[i as int]) && is_digit_char(s@[i as int + 1])
            && is_digit_char(s@[i as int + 2]) && is_digit_char(s@[i as int + 3])),
        r matches Some(v) ==> v == num4(s@, i as int),
{
    let b0 = s.get_ascii(i);
    let b1 = s.get_ascii(i + 1);
    let b2 = s.get_ascii(i + 2);
    let b3 = s.get_ascii(i + 3);
    if 48 <= b0 && b0 <= 57 && 48 <= b1 && b1 <= 57 && 48 <= b2 && b2 <= 57 && 48 <= b3 && b3
        <= 57 {
        Some(
            ((b0 - 48) as u32) * 1000 + ((b1 - 48) as u32) * 100 + ((b2 - 48) as u32) * 10 + ((b3
                - 48) as u32),
        )
    } else {
        None
    }
}

/// The days of the given month, honoring leap years.
fn month_length(year: i32, month: u32) -> (r: u32)
    requires
        1 <= month <= 12,
    ensures
        r == days_in_month(year as int, month as int),
{
    if month == 2 {
        if year % 4 == 0 && (year % 100 != 0 || year % 400 == 0) {
            29
        } else {
            28
        }
    } else if month == 4 || month == 6 || month == 9 || month == 11 {
        30
    } else {
        31
    }
}

/// Parses a show-time text in the fixed shape `YYYY-MM-DDTHH:MM:SS`,
/// returning its fields exactly when the text is a valid local date-time.
pub fn parse_show_time(s: &str) -> (r: Option<Stamp>)
    ensures
        r is Some <==> valid_show_time(s@),
        r matches Some(st) ==> st == Stamp::of_text(s@) && st.wf(),
{
    if !s.is_ascii() {
        proof {
            if stamp_shape(s@) {
                lemma_shape_ascii(s@);
            }
        }
        return None;
    }
    let n = s.unicode_len();
    if n != 19 {
        return None;
    }
    if s.get_ascii(4) != 45 || s.get_ascii(7) != 45 {
        return None;
    }
    if s.get_ascii(10) != 84 {
        return None;
    }
    if s.get_ascii(13) != 58 || s.get_ascii(16) != 58 {
        return None;
    }
    let year = match four_digits(s, 0) {
        Some(v) => v,
        None => {
            return None;
        },
    };
    let month = match two_digits(s, 5) {
        Some(v) => v,
        None => {
            return None;
        },
    };
    let day = match two_digits(s, 8) {
        Some(v) => v,
        None => {
            return None;
        },
    };
    let hour = match two_digits(s, 11) {
        Some(v) => v,
        None => {
            return None;
        },
    };
    let minute = match two_digits(s, 14) {
        Some(v) => v,
        None => {
            return None;
        },
    };
    let second = match two_digits(s, 17) {
        Some(v) => v,
        None => {
            return None;
        },
    };
    assert(stamp_shape(s@));
    if !(1 <= month && month <= 12) {
        return None;
    }
    let year_i: i32 = year as i32;
    let dim = month_length(year_i, month);
    if !(1 <= day && day <= dim) {
        return None;
    }
    if hour > 23 || minute > 59 || second > 59 {
        return None;
    }
    Some(Stamp { year: year_i, month, day, hour, minute, second })
}

/// The short display form of a valid show-time text: `MM/DD HH:MM`.
pub open spec fn display_time(s: Seq<char>) -> Seq<char> {
    s.subrange(5, 7) + seq!['/'] + s.subrange(8, 10) + seq![' '] + s.subrange(11, 16)
}

/// Extracts `MM/DD HH:MM` from a show-time text of the fixed shape: the date
/// as month and day, the time with its seconds dropped.
pub fn format_show_time(show_time_clt: &str) -> (r: String)
    requires
        stamp_shape(show_time_clt@),
    ensures
        r@ == display_time(show_time_clt@),
{
    proof {
        lemma_shape_ascii(show_time_clt@);
    }
    let mut out = String::from_str(show_time_clt.substring_ascii(5, 7));
    out.append("/");
    out.append(show_time_clt.substring_ascii(8, 10));
    out.append(" ");
    out.append(show_time_clt.substring_ascii(11, 16));
    proof {
        reveal_strlit("/");
        reveal_strlit(" ");
        assert(out@ =~= display_time(show_time_clt@));
    }
    out
}

} // verus!
