//! Calendar timestamps as plain values.
//!
//! The library holds a date and time of day as six integers, formats them as
//! the 14-digit filename prefix and as the org-mode datestamp (weekday
//! included, computed by Sakamoto's congruence), and parses the
//! `MM/DD/YYYY HH:MM:SS` form in which the platform's file-information
//! utility reports creation and modification times.  Only the clock itself
//! is read through an outside crate.

use vstd::prelude::*;

verus! {

/// A calendar date with a time of day, held as plain integers.
#[derive(Clone, Copy, Debug, PartialEq, Eq, Structural)]
pub struct Timestamp {
    pub year: u32,
    pub month: u32,
    pub day: u32,
    pub hour: u32,
    pub minute: u32,
    pub second: u32,
}

impl Timestamp {
    /// Every field is in the range its formatted form allows: a four-digit
    /// year, a month of the calendar, a day number at most 31, and a time of
    /// day.
    pub open spec fn wf(&self) -> bool {
        &&& self.year <= 9999
        &&& 1 <= self.month <= 12
        &&& 1 <= self.day <= 31
        &&& self.hour <= 23
        &&& self.minute <= 59
        &&& self.second <= 59
    }

    /// The timestamp names a real moment of the proleptic Gregorian
    /// calendar: well-formed, with the day inside the month.
    pub open spec fn valid(&self) -> bool {
        &&& self.year <= 9999
        &&& 1 <= self.month <= 12
        &&& 1 <= self.day
        &&& self.day as nat <= spec_days_in_month(self.year as nat, self.month as nat)
        &&& self.hour <= 23
        &&& self.minute <= 59
        &&& self.second <= 59
    }

    /// A valid timestamp is in particular well-formed.
    pub proof fn lemma_valid_is_wf(&self)
        requires
            self.valid(),
        ensures
            self.wf(),
    {
    }
}

/// A year of the proleptic Gregorian calendar with 366 days.
pub open spec fn spec_is_leap_year(y: nat) -> bool {
    y % 4 == 0 && (y % 100 != 0 || y % 400 == 0)
}

/// How many days the given month of the given year has.
pub open spec fn spec_days_in_month(y: nat, m: nat) -> nat {
    if m == 2 {
        if spec_is_leap_year(y) {
            29
        } else {
            28
        }
    } else if m == 4 || m == 6 || m == 9 || m == 11 {
        30
    } else {
        31
    }
}

/// How many days the given month of the given year has.
pub fn days_in_month(year: u32, month: u32) -> (r: u32)
    requires
        1 <= month <= 12,
    ensures
        r == spec_days_in_month(year as nat, month as nat),
{
    if month == 2 {
        if year % 4 == 0 && (year % 100 != 0 || year % 400 == 0) {
            29
        } else {
            28
        }
    } else if month == 4 || month == 6 || month == 9 || month == 11 {
        30
    } else {
        31
    }
}

/// The decimal digit character for a value below ten.
pub open spec fn spec_digit_char(d: nat) -> char {
    if d == 0 {
        '0'
    } else if d == 1 {
        '1'
    } else if d == 2 {
        '2'
    } else if d == 3 {
        '3'
    } else if d == 4 {
        '4'
    } else if d == 5 {
        '5'
    } else if d == 6 {
        '6'
    } else if d == 7 {
        '7'
    } else if d == 8 {
        '8'
    } else {
        '9'
    }
}

fn digit_char(d: u32) -> (r: char)
    requires
        d <= 9,
    ensures
        r == spec_digit_char(d as nat),
{
    match d {
        0 => '0',
        1 => '1',
        2 => '2',
        3 => '3',
        4 => '4',
        5 => '5',
        6 => '6',
        7 => '7',
        8 => '8',
        _ => '9',
    }
}

/// A character that is a decimal digit.
pub open spec fn spec_is_digit(c: char) -> bool {
    c == '0' || c == '1' || c == '2' || c == '3' || c == '4' || c == '5' || c == '6' || c == '7'
        || c == '8' || c == '9'
}

/// The value of a decimal digit character.
pub open spec fn spec_digit_val(c: char) -> nat {
    if c == '0' {
        0
    } else if c == '1' {
        1
    } else if c == '2' {
        2
    } else if c == '3' {
        3
    } else if c == '4' {
        4
    } else if c == '5' {
        5
    } else if c == '6' {
        6
    } else if c == '7' {
        7
    } else if c == '8' {
        8
    } else {
        9
    }
}

fn digit_val(c: char) -> (r: Option<u32>)
    ensures
        r is Some <==> spec_is_digit(c),
        r matches Some(v) ==> v == spec_digit_val(c) && v <= 9,
{
    match c {
        '0' => Some(0),
        '1' => Some(1),
        '2' => Some(2),
        '3' => Some(3),
        '4' => Some(4),
        '5' => Some(5),
        '6' => Some(6),
        '7' => Some(7),
        '8' => Some(8),
        '9' => Some(9),
        _ => None,
    }
}

/// A value below 100 as two decimal digit characters, zero-padded.
pub open spec fn spec_pad2(v: nat) -> Seq<char> {
    seq![spec_digit_char((v / 10) % 10), spec_digit_char(v % 10)]
}

/// A value below 10000 as four decimal digit characters, zero-padded.
pub open spec fn spec_pad4(v: nat) -> Seq<char> {
    seq![
        spec_digit_char((v / 1000) % 10),
        spec_digit_char((v / 100) % 10),
        spec_digit_char((v / 10) % 10),
        spec_digit_char(v % 10),
    ]
}

fn pad2(v: u32) -> (r: String)
    requires
        v <= 99,
    ensures
        r@ == spec_pad2(v as nat),
{
    let mut r = String::new();
    crate::strutil::push_char(&mut r, digit_char(v / 10));
    crate::strutil::push_char(&mut r, digit_char(v % 10));
    proof {
        assert(r@ =~= spec_pad2(v as nat));
    }
    r
}

fn pad4(v: u32) -> (r: String)
    requires
        v <= 9999,
    ensures
        r@ == spec_pad4(v as nat),
{
    let mut r = String::new();
    crate::strutil::push_char(&mut r, digit_char(v / 1000));
    crate::strutil::push_char(&mut r, digit_char((v / 100) % 10));
    crate::strutil::push_char(&mut r, digit_char((v / 10) % 10));
    crate::strutil::push_char(&mut r, digit_char(v % 10));
    proof {
        assert(r@ =~= spec_pad4(v as nat));
    }
    r
}

/// The 14-digit filename prefix: year, month, day, hour, minute and second,
/// each zero-padded.
pub open spec fn spec_ts_prefix(ts: Timestamp) -> Seq<char> {
    spec_pad4(ts.year as nat) + spec_pad2(ts.month as nat) + spec_pad2(ts.day as nat) + spec_pad2(
        ts.hour as nat,
    ) + spec_pad2(ts.minute as nat) + spec_pad2(ts.second as nat)
}

/// Every character of the 14-digit prefix is a decimal digit.
pub proof fn lemma_ts_prefix_digits(ts: Timestamp)
    ensures
        spec_ts_prefix(ts).len() == 14,
        forall|i: int| 0 <= i < 14 ==> spec_is_digit(#[trigger] spec_ts_prefix(ts)[i]),
{
    assert forall|i: int| 0 <= i < 14 implies spec_is_digit(#[trigger] spec_ts_prefix(ts)[i]) by {
        assert(spec_ts_prefix(ts)[i] == spec_digit_char(spec_digit_val(spec_ts_prefix(ts)[i])));
    }
}

/// Returns the timestamp as the 14-digit `YYYYMMDDHHMMSS` filename prefix.
pub fn ts_to_prefix(ts: &Timestamp) -> (r: String)
    requires
        ts.wf(),
    ensures
        r@ == spec_ts_prefix(*ts),
        r@.len() == 14,
{
    let mut r = pad4(ts.year);
    r.append(pad2(ts.month).as_str());
    r.append(pad2(ts.day).as_str());
    r.append(pad2(ts.hour).as_str());
    r.append(pad2(ts.minute).as_str());
    r.append(pad2(ts.second).as_str());
    r
}

/// Sakamoto's month offsets for the day-of-week congruence.
pub open spec fn spec_month_offset(m: nat) -> nat {
    if m == 1 {
        0
    } else if m == 2 {
        3
    } else if m == 3 {
        2
    } else if m == 4 {
        5
    } else if m == 5 {
        0
    } else if m == 6 {
        3
    } else if m == 7 {
        5
    } else if m == 8 {
        1
    } else if m == 9 {
        4
    } else if m == 10 {
        6
    } else if m == 11 {
        2
    } else {
        4
    }
}

/// The day of the week (0 is Sunday, 6 is Saturday) of a proleptic Gregorian
/// date, by Sakamoto's congruence.  The year is shifted by 400 — one full
/// Gregorian weekday cycle — so that the arithmetic stays nonnegative for
/// January and February of year 0.
pub open spec fn spec_weekday(year: nat, month: nat, day: nat) -> nat {
    let y: nat = if month < 3 {
        (year + 399) as nat
    } else {
        year + 400
    };
    ((y + y / 4 - y / 100 + y / 400 + spec_month_offset(month) + day) % 7) as nat
}

fn month_offset(m: u32) -> (r: u32)
    requires
        1 <= m <= 12,
    ensures
        r == spec_month_offset(m as nat),
{
    match m {
        1 => 0,
        2 => 3,
        3 => 2,
        4 => 5,
        5 => 0,
        6 => 3,
        7 => 5,
        8 => 1,
        9 => 4,
        10 => 6,
        11 => 2,
        _ => 4,
    }
}

/// The day of the week of the given date (0 is Sunday, 6 is Saturday).
pub fn weekday(year: u32, month: u32, day: u32) -> (r: u32)
    requires
        year <= 9999,
        1 <= month <= 12,
        day <= 31,
    ensures
        r == spec_weekday(year as nat, month as nat, day as nat),
        r <= 6,
{
    let y: u32 = if month < 3 {
        year + 399
    } else {
        year + 400
    };
    (y + y / 4 - y / 100 + y / 400 + month_offset(month) + day) % 7
}

/// The three-letter English name of a day of the week (0 is Sunday).
pub open spec fn spec_weekday_name(w: nat) -> Seq<char> {
    if w == 0 {
        "Sun"@
    } else if w == 1 {
        "Mon"@
    } else if w == 2 {
        "Tue"@
    } else if w == 3 {
        "Wed"@
    } else if w == 4 {
        "Thu"@
    } else if w == 5 {
        "Fri"@
    } else {
        "Sat"@
    }
}

fn weekday_name(w: u32) -> (r: String)
    requires
        w <= 6,
    ensures
        r@ == spec_weekday_name(w as nat),
{
    match w {
        0 => String::from_str("Sun"),
        1 => String::from_str("Mon"),
        2 => String::from_str("Tue"),
        3 => String::from_str("Wed"),
        4 => String::from_str("Thu"),
        5 => String::from_str("Fri"),
        _ => String::from_str("Sat"),
    }
}

/// The org-mode inactive datestamp `[YYYY-MM-DD Www HH:MM]` of a timestamp.
pub open spec fn spec_org_timestamp(ts: Timestamp) -> Seq<char> {
    "["@ + spec_pad4(ts.year as nat) + "-"@ + spec_pad2(ts.month as nat) + "-"@ + spec_pad2(
        ts.day as nat,
    ) + " "@ + spec_weekday_name(
        spec_weekday(ts.year as nat, ts.month as nat, ts.day as nat),
    ) + " "@ + spec_pad2(ts.hour as nat) + ":"@ + spec_pad2(ts.minute as nat) + "]"@
}

/// Returns the timestamp in the org-mode inactive datestamp form
/// `[YYYY-MM-DD Www HH:MM]` (no seconds; the weekday written out).
pub fn org_timestamp(ts: &Timestamp) -> (r: String)
    requires
        ts.wf(),
    ensures
        r@ == spec_org_timestamp(*ts),
{
    let mut r = String::from_str("[");
    r.append(pad4(ts.year).as_str());
    r.append("-");
    r.append(pad2(ts.month).as_str());
    r.append("-");
    r.append(pad2(ts.day).as_str());
    r.append(" ");
    let w = weekday(ts.year, ts.month, ts.day);
    r.append(weekday_name(w).as_str());
    r.append(" ");
    r.append(pad2(ts.hour).as_str());
    r.append(":");
    r.append(pad2(ts.minute).as_str());
    r.append("]");
    proof {
        assert(r@ =~= spec_org_timestamp(*ts));
    }
    r
}

/// The string has exactly the shape `MM/DD/YYYY HH:MM:SS`: nineteen
/// characters, the separators where they belong, digits everywhere else.
pub open spec fn spec_dt_shape(s: Seq<char>) -> bool {
    &&& s.len() == 19
    &&& spec_is_digit(s[0]) && spec_is_digit(s[1])
    &&& s[2] == '/'
    &&& spec_is_digit(s[3]) && spec_is_digit(s[4])
    &&& s[5] == '/'
    &&& spec_is_digit(s[6]) && spec_is_digit(s[7]) && spec_is_digit(s[8]) && spec_is_digit(s[9])
    &&& s[10] == ' '
    &&& spec_is_digit(s[11]) && spec_is_digit(s[12])
    &&& s[13] == ':'
    &&& spec_is_digit(s[14]) && spec_is_digit(s[15])
    &&& s[16] == ':'
    &&& spec_is_digit(s[17]) && spec_is_digit(s[18])
}

/// The value of the two digit characters at `i` and `i + 1`.
pub open spec fn spec_two_digit_val(s: Seq<char>, i: int) -> nat {
    10 * spec_digit_val(s[i]) + spec_digit_val(s[i + 1])
}

/// The value of the four digit characters starting at `i`.
pub open spec fn spec_four_digit_val(s: Seq<char>, i: int) -> nat {
    1000 * spec_digit_val(s[i]) + 100 * spec_digit_val(s[i + 1]) + 10 * spec_digit_val(s[i + 2])
        + spec_digit_val(s[i + 3])
}

/// The timestamp read off a string of the shape `MM/DD/YYYY HH:MM:SS`.
pub open spec fn spec_parse_dt(s: Seq<char>) -> Timestamp {
    Timestamp {
        year: spec_four_digit_val(s, 6) as u32,
        month: spec_two_digit_val(s, 0) as u32,
        day: spec_two_digit_val(s, 3) as u32,
        hour: spec_two_digit_val(s, 11) as u32,
        minute: spec_two_digit_val(s, 14) as u32,
        second: spec_two_digit_val(s, 17) as u32,
    }
}

/// The string parses as a datetime: it has the `MM/DD/YYYY HH:MM:SS` shape
/// and the values name a real moment of the calendar.
pub open spec fn spec_dt_parses(s: Seq<char>) -> bool {
    spec_dt_shape(s) && spec_parse_dt(s).valid()
}

fn two_digit_val(s: &str, i: usize) -> (r: Option<u32>)
    requires
        i + 1 < s@.len() <= usize::MAX,
    ensures
        r is Some <==> spec_is_digit(s@[i as int]) && spec_is_digit(s@[i + 1]),
        r matches Some(v) ==> v == spec_two_digit_val(s@, i as int) && v <= 99,
{
    let hi = digit_val(s.get_char(i));
    let lo = digit_val(s.get_char(i + 1));
    match (hi, lo) {
        (Some(h), Some(l)) => Some(10 * h + l),
        _ => None,
    }
}

fn four_digit_val(s: &str, i: usize) -> (r: Option<u32>)
    requires
        i + 3 < s@.len() <= usize::MAX,
    ensures
        r is Some <==> spec_is_digit(s@[i as int]) && spec_is_digit(s@[i + 1]) && spec_is_digit(
            s@[i + 2],
        ) && spec_is_digit(s@[i + 3]),
        r matches Some(v) ==> v == spec_four_digit_val(s@, i as int) && v <= 9999,
{
    let a = digit_val(s.get_char(i));
    let b = digit_val(s.get_char(i + 1));
    let c = digit_val(s.get_char(i + 2));
    let d = digit_val(s.get_char(i + 3));
    match (a, b, c, d) {
        (Some(a), Some(b), Some(c), Some(d)) => Some(1000 * a + 100 * b + 10 * c + d),
        _ => None,
    }
}

/// Parses a datetime of exactly the shape `MM/DD/YYYY HH:MM:SS` — the form
/// in which the platform's file-information utility reports times.  Succeeds
/// if and only if the shape matches and the values name a real moment of the
/// calendar.
pub fn str_to_dt(s: &str) -> (r: Result<Timestamp, String>)
    ensures
        r is Ok <==> spec_dt_parses(s@),
        r matches Ok(t) ==> t == spec_parse_dt(s@) && t.valid(),
        r matches Err(e) ==> e@ == "invalid datetime string"@,
{
    let len = s.unicode_len();
    if len != 19 {
        return Err(String::from_str("invalid datetime string"));
    }
    if !(s.get_char(2) == '/' && s.get_char(5) == '/' && s.get_char(10) == ' ' && s.get_char(13)
        == ':' && s.get_char(16) == ':') {
        return Err(String::from_str("invalid datetime string"));
    }
    let month = two_digit_val(s, 0);
    let day = two_digit_val(s, 3);
    let year = four_digit_val(s, 6);
    let hour = two_digit_val(s, 11);
    let minute = two_digit_val(s, 14);
    let second = two_digit_val(s, 17);
    match (month, day, year, hour, minute, second) {
        (Some(month), Some(day), Some(year), Some(hour), Some(minute), Some(second)) => {
            if 1 <= month && month <= 12 && 1 <= day && day <= days_in_month(year, month) && hour
                <= 23 && minute <= 59 && second <= 59 {
                Ok(Timestamp { year, month, day, hour, minute, second })
            } else {
                Err(String::from_str("invalid datetime string"))
            }
        },
        _ => Err(String::from_str("invalid datetime string")),
    }
}

/// Relies on chrono's `Local::now` (the local wall-clock time) and on the
/// documented ranges of the `Datelike` and `Timelike` accessors: the month
/// runs from 1 to 12, the day of the month from 1 to 31, the hour from 0 to
/// 23, the minute and the second from 0 to 59.  The year is whatever the
/// clock says.
#[verifier::external_body]
fn now_parts() -> (r: (i32, u32, u32, u32, u32, u32))
    ensures
        1 <= r.1 <= 12,
        1 <= r.2 <= 31,
        r.3 <= 23,
        r.4 <= 59,
        r.5 <= 59,
{
    let now = chrono::offset::Local::now().naive_local();
    (
        chrono::Datelike::year(&now),
        chrono::Datelike::month(&now),
        chrono::Datelike::day(&now),
        chrono::Timelike::hour(&now),
        chrono::Timelike::minute(&now),
        chrono::Timelike::second(&now),
    )
}

/// The timestamp built from raw clock parts: the year must fit the
/// four-digit form, the other fields are taken as they are.
pub open spec fn spec_timestamp_from_parts(
    year: i32,
    month: u32,
    day: u32,
    hour: u32,
    minute: u32,
    second: u32,
) -> Option<Timestamp> {
    if 0 <= year <= 9999 {
        Some(Timestamp { year: year as u32, month, day, hour, minute, second })
    } else {
        None
    }
}

/// Builds a timestamp from raw clock parts; `None` exactly when the year
/// stands outside 0 to 9999.
pub fn timestamp_from_parts(
    year: i32,
    month: u32,
    day: u32,
    hour: u32,
    minute: u32,
    second: u32,
) -> (r: Option<Timestamp>)
    ensures
        r == spec_timestamp_from_parts(year, month, day, hour, minute, second),
        r is Some <==> 0 <= year <= 9999,
{
    if 0 <= year && year <= 9999 {
        Some(Timestamp { year: year as u32, month, day, hour, minute, second })
    } else {
        None
    }
}

/// The local time now: the clock's parts, run through
/// `timestamp_from_parts`.  Whatever the clock says, the result is the
/// conversion of parts within the clock's documented ranges — so `None`
/// comes only from a year outside 0 to 9999, and any timestamp returned is
/// well-formed.
pub fn now_timestamp() -> (r: Option<Timestamp>)
    ensures
        r matches Some(t) ==> t.wf(),
        exists|y: i32, mo: u32, d: u32, h: u32, mi: u32, s: u32|
            1 <= mo <= 12 && 1 <= d <= 31 && h <= 23 && mi <= 59 && s <= 59 && r
                == spec_timestamp_from_parts(y, mo, d, h, mi, s),
{
    let (year, month, day, hour, minute, second) = now_parts();
    let r = timestamp_from_parts(year, month, day, hour, minute, second);
    proof {
        assert(1 <= month <= 12 && 1 <= day <= 31 && hour <= 23 && minute <= 59 && second <= 59
            && r == spec_timestamp_from_parts(year, month, day, hour, minute, second));
    }
    r
}

} // verus!
