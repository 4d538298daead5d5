//! The enclave's wall clock, read as UTC and written `YYYY-MM-DDTHH:MM:SSZ`.

use crate::json::{decimal_spec, digit_char};
use chrono::{Datelike, Timelike};
use vstd::prelude::*;

verus! {

/// Two decimal digits of `n < 100`, zero-padded.
pub open spec fn two_digits(n: nat) -> Seq<char> {
    seq![digit_char(n / 10), digit_char(n % 10)]
}

/// A non-negative year as chrono writes `%Y`: four digits, zero-padded,
/// up to 9999; beyond that, a `+` and the decimal digits.
pub open spec fn year_text(year: nat) -> Seq<char> {
    if year <= 9999 {
        seq![
            digit_char(year / 1000),
            digit_char((year / 100) % 10),
            digit_char((year / 10) % 10),
            digit_char(year % 10),
        ]
    } else {
        seq!['+'] + decimal_spec(year)
    }
}

/// The text `%Y-%m-%dT%H:%M:%SZ` of a UTC date and time.
pub open spec fn timestamp_text(
    year: nat,
    month: nat,
    day: nat,
    hour: nat,
    minute: nat,
    second: nat,
) -> Seq<char> {
    year_text(year) + seq!['-'] + two_digits(month) + seq!['-'] + two_digits(day) + seq!['T']
        + two_digits(hour) + seq![':'] + two_digits(minute) + seq![':'] + two_digits(second)
        + seq!['Z']
}

/// Whether `year` is a leap year of the Gregorian calendar.
pub open spec fn is_leap_year(year: nat) -> bool {
    year % 4 == 0 && (year % 100 != 0 || year % 400 == 0)
}

/// The number of days in `month` (1 to 12) of `year`.
pub open spec fn days_in_month(year: nat, month: nat) -> nat {
    if month == 2 {
        if is_leap_year(year) { 29 } else { 28 }
    } else if month == 4 || month == 6 || month == 9 || month == 11 {
        30
    } else {
        31
    }
}

/// Whether the fields are those of a UTC time at or after the Unix epoch:
/// a real calendar date (the day within its month's length) and a time of
/// day without leap second.
pub open spec fn valid_utc_fields(
    year: nat,
    month: nat,
    day: nat,
    hour: nat,
    minute: nat,
    second: nat,
) -> bool {
    &&& 1970 <= year
    &&& 1 <= month <= 12
    &&& 1 <= day <= days_in_month(year, month)
    &&& hour < 24
    &&& minute < 60
    &&& second < 60
}

/// Whether `text` is the `%Y-%m-%dT%H:%M:%SZ` text of a UTC time at or after
/// the Unix epoch.
pub open spec fn is_utc_timestamp(text: Seq<char>) -> bool {
    exists|year: nat, month: nat, day: nat, hour: nat, minute: nat, second: nat|
        valid_utc_fields(year, month, day, hour, minute, second) && #[trigger] timestamp_text(
            year,
            month,
            day,
            hour,
            minute,
            second,
        ) == text
}

/// A timestamp of a year up to 9999 is 20 characters long.
pub proof fn lemma_timestamp_text_len(
    year: nat,
    month: nat,
    day: nat,
    hour: nat,
    minute: nat,
    second: nat,
)
    requires
        year <= 9999,
    ensures
        timestamp_text(year, month, day, hour, minute, second).len() == 20,
{
}

proof fn lemma_digit_char_injective(a: nat, b: nat)
    requires
        a < 10,
        b < 10,
        digit_char(a) == digit_char(b),
    ensures
        a == b,
{
}

proof fn lemma_two_digits_injective(a: nat, b: nat)
    requires
        a < 100,
        b < 100,
        two_digits(a) == two_digits(b),
    ensures
        a == b,
{
    assert(two_digits(a)[0] == two_digits(b)[0]);
    assert(two_digits(a)[1] == two_digits(b)[1]);
    lemma_digit_char_injective(a / 10, b / 10);
    lemma_digit_char_injective(a % 10, b % 10);
}

proof fn lemma_decimal_len(n: nat)
    ensures
        decimal_spec(n).len() >= 1,
        n >= 10 ==> decimal_spec(n).len() >= 2,
    decreases n,
{
    if n >= 10 {
        lemma_decimal_len(n / 10);
    }
}

proof fn lemma_decimal_injective(a: nat, b: nat)
    requires
        decimal_spec(a) == decimal_spec(b),
    ensures
        a == b,
    decreases a,
{
    lemma_decimal_len(a);
    lemma_decimal_len(b);
    if a < 10 && b < 10 {
        assert(decimal_spec(a) == seq![digit_char(a)]);
        assert(decimal_spec(b) == seq![digit_char(b)]);
        assert(seq![digit_char(a)][0] == digit_char(a));
        assert(seq![digit_char(b)][0] == digit_char(b));
        assert(decimal_spec(a)[0] == decimal_spec(b)[0]);
        lemma_digit_char_injective(a, b);
    } else if a >= 10 && b >= 10 {
        let da = decimal_spec(a);
        let db = decimal_spec(b);
        assert(da.last() == db.last());
        lemma_digit_char_injective(a % 10, b % 10);
        assert(decimal_spec(a / 10) =~= da.drop_last());
        assert(decimal_spec(b / 10) =~= db.drop_last());
        lemma_decimal_injective(a / 10, b / 10);
    }
}

proof fn lemma_four_digits(y: nat)
    requires
        y <= 9999,
    ensures
        y == 1000 * (y / 1000) + 100 * ((y / 100) % 10) + 10 * ((y / 10) % 10) + y % 10,
        y / 1000 < 10,
{
    assert(y == 1000 * (y / 1000) + 100 * ((y / 100) % 10) + 10 * ((y / 10) % 10) + y % 10)
        by (nonlinear_arith)
        requires
            y <= 9999,
    ;
    assert(y / 1000 < 10) by (nonlinear_arith)
        requires
            y <= 9999,
    ;
}

proof fn lemma_year_text_injective(a: nat, b: nat)
    requires
        year_text(a) == year_text(b),
    ensures
        a == b,
{
    let ta = year_text(a);
    let tb = year_text(b);
    if a <= 9999 && b <= 9999 {
        lemma_four_digits(a);
        lemma_four_digits(b);
        assert(ta[0] == tb[0] && ta[1] == tb[1] && ta[2] == tb[2] && ta[3] == tb[3]);
        lemma_digit_char_injective(a / 1000, b / 1000);
        lemma_digit_char_injective((a / 100) % 10, (b / 100) % 10);
        lemma_digit_char_injective((a / 10) % 10, (b / 10) % 10);
        lemma_digit_char_injective(a % 10, b % 10);
    } else if a > 9999 && b > 9999 {
        assert(decimal_spec(a) =~= ta.drop_first());
        assert(decimal_spec(b) =~= tb.drop_first());
        lemma_decimal_injective(a, b);
    } else if a <= 9999 {
        lemma_four_digits(a);
        assert(ta[0] == tb[0]);
    } else {
        lemma_four_digits(b);
        assert(ta[0] == tb[0]);
    }
}

proof fn lemma_timestamp_layout(
    year: nat,
    month: nat,
    day: nat,
    hour: nat,
    minute: nat,
    second: nat,
)
    ensures
        ({
            let t = timestamp_text(year, month, day, hour, minute, second);
            let l = year_text(year).len() as int;
            &&& t.len() == l + 16
            &&& t.subrange(0, l) == year_text(year)
            &&& t.subrange(l + 1, l + 3) == two_digits(month)
            &&& t.subrange(l + 4, l + 6) == two_digits(day)
            &&& t.subrange(l + 7, l + 9) == two_digits(hour)
            &&& t.subrange(l + 10, l + 12) == two_digits(minute)
            &&& t.subrange(l + 13, l + 15) == two_digits(second)
        }),
{
    let t = timestamp_text(year, month, day, hour, minute, second);
    let l = year_text(year).len() as int;
    assert(t.subrange(0, l) =~= year_text(year));
    assert(t.subrange(l + 1, l + 3) =~= two_digits(month));
    assert(t.subrange(l + 4, l + 6) =~= two_digits(day));
    assert(t.subrange(l + 7, l + 9) =~= two_digits(hour));
    assert(t.subrange(l + 10, l + 12) =~= two_digits(minute));
    assert(t.subrange(l + 13, l + 15) =~= two_digits(second));
}

/// The timestamp text determines the time it writes: two valid UTC times
/// have the same text exactly when they are the same time, so a timestamp
/// changes whenever the clock reading it was taken from does.
pub proof fn lemma_timestamp_text_injective(
    year1: nat,
    month1: nat,
    day1: nat,
    hour1: nat,
    minute1: nat,
    second1: nat,
    year2: nat,
    month2: nat,
    day2: nat,
    hour2: nat,
    minute2: nat,
    second2: nat,
)
    requires
        valid_utc_fields(year1, month1, day1, hour1, minute1, second1),
        valid_utc_fields(year2, month2, day2, hour2, minute2, second2),
    ensures
        timestamp_text(year1, month1, day1, hour1, minute1, second1) == timestamp_text(
            year2,
            month2,
            day2,
            hour2,
            minute2,
            second2,
        ) <==> (year1 == year2 && month1 == month2 && day1 == day2 && hour1 == hour2 && minute1
            == minute2 && second1 == second2),
{
    let t1 = timestamp_text(year1, month1, day1, hour1, minute1, second1);
    let t2 = timestamp_text(year2, month2, day2, hour2, minute2, second2);
    if t1 == t2 {
        lemma_timestamp_layout(year1, month1, day1, hour1, minute1, second1);
        lemma_timestamp_layout(year2, month2, day2, hour2, minute2, second2);
        let l = year_text(year1).len() as int;
        assert(year_text(year2).len() == l);
        lemma_year_text_injective(year1, year2);
        lemma_two_digits_injective(month1, month2);
        lemma_two_digits_injective(day1, day2);
        lemma_two_digits_injective(hour1, hour2);
        lemma_two_digits_injective(minute1, minute2);
        lemma_two_digits_injective(second1, second2);
    }
}

/// One reading of the UTC clock: its fields and its text. Its fields are
/// private, so a reading comes only from the clock itself.
pub struct ClockReading {
    year: i32,
    month: u32,
    day: u32,
    hour: u32,
    minute: u32,
    second: u32,
    text: String,
}

impl ClockReading {
    /// The reading's year.
    pub closed spec fn spec_year(&self) -> int {
        self.year as int
    }

    /// The reading's `%Y-%m-%dT%H:%M:%SZ` text.
    pub closed spec fn spec_text(&self) -> Seq<char> {
        self.text@
    }

    /// The time read: year, month, day, hour, minute and second.
    pub closed spec fn spec_time(&self) -> (int, int, int, int, int, int) {
        (
            self.year as int,
            self.month as int,
            self.day as int,
            self.hour as int,
            self.minute as int,
            self.second as int,
        )
    }

    /// Two readings carry the same text exactly when they read the same
    /// time.
    pub proof fn lemma_text_identifies_time(first: ClockReading, second: ClockReading)
        requires
            first.is_consistent(),
            second.is_consistent(),
        ensures
            first.spec_text() == second.spec_text() <==> first.spec_time() == second.spec_time(),
    {
        lemma_timestamp_text_injective(
            first.year as nat,
            first.month as nat,
            first.day as nat,
            first.hour as nat,
            first.minute as nat,
            first.second as nat,
            second.year as nat,
            second.month as nat,
            second.day as nat,
            second.hour as nat,
            second.minute as nat,
            second.second as nat,
        );
    }

    /// The reading is a UTC time at or after the Unix epoch, and its text is
    /// that time written `%Y-%m-%dT%H:%M:%SZ`.
    pub closed spec fn is_consistent(&self) -> bool {
        &&& self.year >= 0
        &&& valid_utc_fields(
            self.year as nat,
            self.month as nat,
            self.day as nat,
            self.hour as nat,
            self.minute as nat,
            self.second as nat,
        )
        &&& self.text@ == timestamp_text(
            self.year as nat,
            self.month as nat,
            self.day as nat,
            self.hour as nat,
            self.minute as nat,
            self.second as nat,
        )
    }

    /// The text of a consistent reading is a UTC timestamp.
    pub proof fn lemma_text_is_utc_timestamp(reading: ClockReading)
        requires
            reading.is_consistent(),
        ensures
            is_utc_timestamp(reading.spec_text()),
    {
        assert(timestamp_text(
            reading.year as nat,
            reading.month as nat,
            reading.day as nat,
            reading.hour as nat,
            reading.minute as nat,
            reading.second as nat,
        ) == reading.text@);
    }

    /// The reading's text.
    pub fn text(&self) -> (text: &str)
        ensures
            text@ == self.spec_text(),
    {
        self.text.as_str()
    }
}

/// Reads the system clock (`std::time::SystemTime::now`) as a duration since
/// the Unix epoch, turns it into a UTC date and time with
/// `chrono::DateTime::from_timestamp`, and takes the date's fields and its
/// `format("%Y-%m-%dT%H:%M:%SZ")` text. Yields nothing when the clock reads
/// before the epoch or beyond chrono's range. Claims, of a reading, what
/// chrono documents: the year is that of a time at or after the epoch, the
/// date is a real calendar date (chrono's dates are always valid), the
/// month, hour, minute and second lie in their ranges (a time built
/// from whole seconds and sub-second nanoseconds is never a leap second),
/// and the text is those fields as `%Y-%m-%dT%H:%M:%SZ` writes them. Which
/// time it is depends on when it is called, and nothing says that.
#[verifier::external_body]
pub(crate) fn read_utc_clock() -> (reading: Option<ClockReading>)
    ensures
        reading matches Some(r) ==> r.is_consistent(),
{
    let since_epoch = std::time::SystemTime::now().duration_since(std::time::UNIX_EPOCH).ok()?;
    let secs = i64::try_from(since_epoch.as_secs()).ok()?;
    let now = chrono::DateTime::from_timestamp(secs, since_epoch.subsec_nanos())?;
    Some(ClockReading {
        year: now.year(),
        month: now.month(),
        day: now.day(),
        hour: now.hour(),
        minute: now.minute(),
        second: now.second(),
        text: now.format("%Y-%m-%dT%H:%M:%SZ").to_string(),
    })
}

/// The current UTC time as `%Y-%m-%dT%H:%M:%SZ`, or nothing when the clock
/// cannot be read as a time at or after the Unix epoch.
pub fn utc_timestamp() -> (timestamp: Option<String>)
    ensures
        timestamp matches Some(t) ==> is_utc_timestamp(t@),
{
    match read_utc_clock() {
        Some(reading) => {
            proof {
                ClockReading::lemma_text_is_utc_timestamp(reading);
            }
            Some(String::from_str(reading.text()))
        },
        None => None,
    }
}

} // verus!
