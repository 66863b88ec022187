//! Capture dates: the calendar they must exist in, and the two written forms
//! they are read from.

use vstd::prelude::*;
use vstd::string::*;

verus! {

/// A date and a time of day, without a time zone, as a camera or a directory
/// name gives them. The fields are plain numbers; `is_calendar` says whether
/// they name a moment that exists.
#[derive(Clone, Copy, Debug, PartialEq, Eq, Structural)]
pub struct CaptureDate {
    pub year: u16,
    pub month: u8,
    pub day: u8,
    pub hour: u8,
    pub minute: u8,
    pub second: u8,
}

/// Leap years of the proleptic Gregorian calendar.
pub open spec fn is_leap_year(year: int) -> bool {
    year % 4 == 0 && (year % 100 != 0 || year % 400 == 0)
}

/// The number of days of a month, for `month` from 1 to 12.
pub open spec fn days_in_month(year: int, month: int) -> int {
    if month == 2 {
        if is_leap_year(year) {
            29
        } else {
            28
        }
    } else if month == 4 || month == 6 || month == 9 || month == 11 {
        30
    } else {
        31
    }
}

/// Whether the six numbers name a day of the proleptic Gregorian calendar and
/// a second of that day. A leap second (second 60) is not one.
pub open spec fn is_calendar_moment(
    year: int,
    month: int,
    day: int,
    hour: int,
    minute: int,
    second: int,
) -> bool {
    &&& 1 <= month <= 12
    &&& 1 <= day <= days_in_month(year, month)
    &&& 0 <= hour < 24
    &&& 0 <= minute < 60
    &&& 0 <= second < 60
}

impl CaptureDate {
    /// Whether this date exists in the calendar.
    pub open spec fn is_calendar(self) -> bool {
        is_calendar_moment(
            self.year as int,
            self.month as int,
            self.day as int,
            self.hour as int,
            self.minute as int,
            self.second as int,
        )
    }

    /// The date, if it exists in the calendar.
    pub open spec fn checked(self) -> Option<CaptureDate> {
        if self.is_calendar() {
            Some(self)
        } else {
            None
        }
    }

    /// Keeps the date only if it exists in the calendar.
    pub fn validate(self) -> (date: Option<CaptureDate>)
        ensures
            date == self.checked(),
    {
        if calendar_accepts(self.year, self.month, self.day, self.hour, self.minute, self.second) {
            Some(self)
        } else {
            None
        }
    }
}

/// Asks `chrono::NaiveDate::from_ymd_opt`, then `chrono::NaiveDate::and_hms_opt`,
/// whether the numbers make a `NaiveDateTime`. Trusted: the first gives a date
/// exactly when month and day name a day that exists in the proleptic
/// Gregorian calendar (every year a `u16` can hold is within chrono's range),
/// the second a time exactly when hour, minute and second are below 24, 60
/// and 60.
#[verifier::external_body]
fn calendar_accepts(
    year: u16,
    month: u8,
    day: u8,
    hour: u8,
    minute: u8,
    second: u8,
) -> (accepted: bool)
    ensures
        accepted == is_calendar_moment(
            year as int,
            month as int,
            day as int,
            hour as int,
            minute as int,
            second as int,
        ),
{
    match chrono::NaiveDate::from_ymd_opt(year.into(), month.into(), day.into()) {
        Some(date) => date.and_hms_opt(hour.into(), minute.into(), second.into()).is_some(),
        None => false,
    }
}

// ---------------------------------------------------------------------------
// The form of embedded metadata: bytes `YYYY:MM:DD HH:MM:SS`.
// ---------------------------------------------------------------------------

/// Whether the byte is an ASCII decimal digit.
pub open spec fn is_digit_byte(b: u8) -> bool {
    0x30 <= b <= 0x39
}

/// The number that `width` ASCII digits starting at `at` spell.
pub open spec fn bytes_number(text: Seq<u8>, at: int, width: nat) -> int
    decreases width,
{
    if width == 0 {
        0
    } else {
        bytes_number(text, at, (width - 1) as nat) * 10 + (text[at + width - 1] - 0x30)
    }
}

/// Whether the bytes begin with nineteen bytes of the form
/// `dddd:dd:dd dd:dd:dd`, each `d` a digit. What follows them is not looked
/// at.
pub open spec fn has_metadata_shape(text: Seq<u8>) -> bool {
    &&& text.len() >= 19
    &&& text[4] == 0x3a
    &&& text[7] == 0x3a
    &&& text[10] == 0x20
    &&& text[13] == 0x3a
    &&& text[16] == 0x3a
    &&& forall|i: int|
        0 <= i < 19 && i != 4 && i != 7 && i != 10 && i != 13 && i != 16 ==> is_digit_byte(
            #[trigger] text[i],
        )
}

/// The six numbers that a metadata date-time text spells, whether or not they
/// name a moment that exists.
pub open spec fn metadata_fields(text: Seq<u8>) -> Option<CaptureDate> {
    if has_metadata_shape(text) {
        Some(
            CaptureDate {
                year: bytes_number(text, 0, 4) as u16,
                month: bytes_number(text, 5, 2) as u8,
                day: bytes_number(text, 8, 2) as u8,
                hour: bytes_number(text, 11, 2) as u8,
                minute: bytes_number(text, 14, 2) as u8,
                second: bytes_number(text, 17, 2) as u8,
            },
        )
    } else {
        None
    }
}

/// The capture date that a metadata date-time text gives: its six numbers,
/// if it has the form and they exist in the calendar.
pub open spec fn metadata_date(text: Seq<u8>) -> Option<CaptureDate> {
    match metadata_fields(text) {
        Some(fields) => fields.checked(),
        None => None,
    }
}

/// Reads the six numbers with `exif::DateTime::from_ascii`. Trusted: that
/// function succeeds exactly on texts of at least nineteen bytes with `:`,
/// `:`, space, `:`, `:` at offsets 4, 7, 10, 13, 16 and ASCII digits at the
/// other offsets below 19, and then returns the decimal numbers they spell,
/// without checking their ranges.
#[verifier::external_body]
fn read_metadata_fields(text: &[u8]) -> (fields: Option<CaptureDate>)
    ensures
        fields == metadata_fields(text@),
{
    match exif::DateTime::from_ascii(text) {
        Ok(at) => Some(
            CaptureDate {
                year: at.year,
                month: at.month,
                day: at.day,
                hour: at.hour,
                minute: at.minute,
                second: at.second,
            },
        ),
        Err(_) => None,
    }
}

/// Parses the text of an embedded date-time field.
pub fn parse_metadata_date(text: &[u8]) -> (date: Option<CaptureDate>)
    ensures
        date == metadata_date(text@),
{
    match read_metadata_fields(text) {
        Some(fields) => fields.validate(),
        None => None,
    }
}

// ---------------------------------------------------------------------------
// The form of a date template's expansion: `YYYY-MM-DD`, alone or followed
// by a space or `T` and `HH:MM:SS`.
// ---------------------------------------------------------------------------

/// Whether the character is an ASCII decimal digit.
pub open spec fn is_digit_char(c: char) -> bool {
    '0' <= c <= '9'
}

/// The value of an ASCII decimal digit.
pub open spec fn digit_value(c: char) -> int {
    c as int - '0' as int
}

/// Whether `width` characters starting at `at` are all digits.
pub open spec fn digits_at(text: Seq<char>, at: int, width: int) -> bool {
    forall|i: int| at <= i < at + width ==> is_digit_char(#[trigger] text[i])
}

/// The number that `width` digits starting at `at` spell.
pub open spec fn chars_number(text: Seq<char>, at: int, width: nat) -> int
    decreases width,
{
    if width == 0 {
        0
    } else {
        chars_number(text, at, (width - 1) as nat) * 10 + digit_value(text[at + width - 1])
    }
}

/// Whether the first ten characters have the form `dddd-dd-dd`.
pub open spec fn has_date_shape(text: Seq<char>) -> bool {
    &&& text.len() >= 10
    &&& digits_at(text, 0, 4)
    &&& text[4] == '-'
    &&& digits_at(text, 5, 2)
    &&& text[7] == '-'
    &&& digits_at(text, 8, 2)
}

/// Whether characters 10 to 18 have the form ` dd:dd:dd` or `Tdd:dd:dd`.
pub open spec fn has_time_shape(text: Seq<char>) -> bool {
    &&& text.len() >= 19
    &&& (text[10] == ' ' || text[10] == 'T')
    &&& digits_at(text, 11, 2)
    &&& text[13] == ':'
    &&& digits_at(text, 14, 2)
    &&& text[16] == ':'
    &&& digits_at(text, 17, 2)
}

/// The six numbers that a date text spells, whether or not they name a moment
/// that exists. A text of ten characters gives midnight.
pub open spec fn text_fields(text: Seq<char>) -> Option<CaptureDate> {
    if text.len() == 10 && has_date_shape(text) {
        Some(
            CaptureDate {
                year: chars_number(text, 0, 4) as u16,
                month: chars_number(text, 5, 2) as u8,
                day: chars_number(text, 8, 2) as u8,
                hour: 0,
                minute: 0,
                second: 0,
            },
        )
    } else if text.len() == 19 && has_date_shape(text) && has_time_shape(text) {
        Some(
            CaptureDate {
                year: chars_number(text, 0, 4) as u16,
                month: chars_number(text, 5, 2) as u8,
                day: chars_number(text, 8, 2) as u8,
                hour: chars_number(text, 11, 2) as u8,
                minute: chars_number(text, 14, 2) as u8,
                second: chars_number(text, 17, 2) as u8,
            },
        )
    } else {
        None
    }
}

/// The capture date that a date text gives: its numbers, if it has one of the
/// two forms and they exist in the calendar.
pub open spec fn text_date(text: Seq<char>) -> Option<CaptureDate> {
    match text_fields(text) {
        Some(fields) => fields.checked(),
        None => None,
    }
}

/// Reads `width` digits starting at `at`, for a width of at most four.
fn read_number(text: &str, at: usize, width: usize) -> (number: Option<u16>)
    requires
        width <= 4,
        at + width <= text@.len(),
        at + width <= usize::MAX,
    ensures
        number is Some <==> digits_at(text@, at as int, width as int),
        number matches Some(n) ==> n == chars_number(text@, at as int, width as nat),
{
    let mut value: u16 = 0;
    let mut done: usize = 0;
    while done < width
        invariant
            done <= width <= 4,
            at + width <= text@.len(),
            at + width <= usize::MAX,
            digits_at(text@, at as int, done as int),
            value == chars_number(text@, at as int, done as nat),
            value <= 9999,
        decreases width - done,
    {
        let c = text.get_char(at + done);
        if !('0' <= c && c <= '9') {
            return None;
        }
        proof {
            lemma_number_bound(text@, at as int, done as nat);
        }
        let digit: u16 = (c as u32 - '0' as u32) as u16;
        value = value * 10 + digit;
        done = done + 1;
        proof {
            lemma_number_bound(text@, at as int, done as nat);
        }
    }
    Some(value)
}

/// A number of `width` digits is below ten to the power `width`, for the
/// widths that dates use.
proof fn lemma_number_bound(text: Seq<char>, at: int, width: nat)
    requires
        width <= 4,
        digits_at(text, at, width as int),
    ensures
        0 <= chars_number(text, at, width),
        width == 0 ==> chars_number(text, at, width) == 0,
        width == 1 ==> chars_number(text, at, width) <= 9,
        width == 2 ==> chars_number(text, at, width) <= 99,
        width == 3 ==> chars_number(text, at, width) <= 999,
        width == 4 ==> chars_number(text, at, width) <= 9999,
    decreases width,
{
    if width > 0 {
        assert(digits_at(text, at, width as int - 1));
        lemma_number_bound(text, at, (width - 1) as nat);
        assert(is_digit_char(text[at + width - 1]));
    }
}

/// Parses the expansion of a date template.
///
/// The text is accepted in two forms, `YYYY-MM-DD` (midnight of that day) and
/// `YYYY-MM-DD HH:MM:SS`, where `T` may stand for the space; nothing may
/// precede or follow. A text in neither form, or one whose numbers name no
/// moment of the calendar, gives no date.
pub fn parse_date_text(text: &str) -> (date: Option<CaptureDate>)
    ensures
        date == text_date(text@),
{
    let len: usize = text.unicode_len();
    if len != 10 && len != 19 {
        return None;
    }
    if text.get_char(4) != '-' || text.get_char(7) != '-' {
        return None;
    }
    let year: u16 = match read_number(text, 0, 4) {
        Some(n) => n,
        None => { return None; },
    };
    let month: u16 = match read_number(text, 5, 2) {
        Some(n) => n,
        None => { return None; },
    };
    let day: u16 = match read_number(text, 8, 2) {
        Some(n) => n,
        None => { return None; },
    };
    proof {
        lemma_number_bound(text@, 5, 2);
        lemma_number_bound(text@, 8, 2);
    }
    if len == 10 {
        let fields = CaptureDate {
            year,
            month: month as u8,
            day: day as u8,
            hour: 0,
            minute: 0,
            second: 0,
        };
        return fields.validate();
    }
    let gap = text.get_char(10);
    if gap != ' ' && gap != 'T' {
        return None;
    }
    if text.get_char(13) != ':' || text.get_char(16) != ':' {
        return None;
    }
    let hour: u16 = match read_number(text, 11, 2) {
        Some(n) => n,
        None => { return None; },
    };
    let minute: u16 = match read_number(text, 14, 2) {
        Some(n) => n,
        None => { return None; },
    };
    let second: u16 = match read_number(text, 17, 2) {
        Some(n) => n,
        None => { return None; },
    };
    proof {
        lemma_number_bound(text@, 11, 2);
        lemma_number_bound(text@, 14, 2);
        lemma_number_bound(text@, 17, 2);
    }
    let fields = CaptureDate {
        year,
        month: month as u8,
        day: day as u8,
        hour: hour as u8,
        minute: minute as u8,
        second: second as u8,
    };
    fields.validate()
}

} // verus!
