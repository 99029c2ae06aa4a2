//! Timestamps for the current time, read from the system clock.

use vstd::prelude::*;
use crate::text::digit_char;
use crate::timestamp::{
    is_date_char, is_timestamp_char, is_valid_timestamp, lemma_plain_partial_time, two_digit_chars,
    Timestamp, TimestampFailure, TimestampParseError,
};

verus! {

/// Message of the error for a clock reading that `time` cannot represent or
/// write in RFC 3339 form.
pub const CLOCK_FORMAT_MESSAGE: &'static str = "could not make timestamp";

#[verifier::external_type_specification]
#[verifier::external_body]
pub struct ExOffsetDateTime(time::OffsetDateTime);

#[verifier::external_type_specification]
#[verifier::external_body]
pub struct ExSystemTime(std::time::SystemTime);

/// Calls `std::time::SystemTime::now`. Trusted only to return a system time;
/// which one depends on the clock, so nothing is said of it.
#[verifier::external_body]
fn system_clock_now() -> std::time::SystemTime {
    std::time::SystemTime::now()
}

/// Calls `SystemTime::duration_since(UNIX_EPOCH)`: `Ok` with the time since
/// the epoch, or `Err` with the time until it (from the error's
/// `duration`). Nothing is said of the durations: a system time has no form
/// here that a clause could speak of.
#[verifier::external_body]
fn elapsed_since_unix_epoch(t: std::time::SystemTime) -> Result<
    std::time::Duration,
    std::time::Duration,
> {
    t.duration_since(std::time::UNIX_EPOCH).map_err(|e| e.duration())
}

/// Calls `time::OffsetDateTime::checked_add` on `OffsetDateTime::UNIX_EPOCH`
/// with `d` converted by `time::Duration::try_from`; none where either
/// overflows `time`'s range. Nothing more is said: the result has no form
/// here that a clause could speak of.
#[verifier::external_body]
fn unix_epoch_plus(d: std::time::Duration) -> Option<time::OffsetDateTime> {
    time::OffsetDateTime::UNIX_EPOCH.checked_add(time::Duration::try_from(d).ok()?)
}

/// Calls `time::OffsetDateTime::checked_sub` on `OffsetDateTime::UNIX_EPOCH`
/// with `d` converted by `time::Duration::try_from`; none where either
/// overflows `time`'s range. Nothing more is said: the result has no form
/// here that a clause could speak of.
#[verifier::external_body]
fn unix_epoch_minus(d: std::time::Duration) -> Option<time::OffsetDateTime> {
    time::OffsetDateTime::UNIX_EPOCH.checked_sub(time::Duration::try_from(d).ok()?)
}

/// The current time in UTC, read from the system clock as
/// `OffsetDateTime::now_utc` reads it, but with none where the clock lies
/// outside the years that `time` represents.
fn utc_now() -> Option<time::OffsetDateTime> {
    match elapsed_since_unix_epoch(system_clock_now()) {
        Ok(after) => unix_epoch_plus(after),
        Err(before) => unix_epoch_minus(before),
    }
}

/// Calls `time::OffsetDateTime::format` with the RFC 3339 well-known format,
/// with the formatting error turned into `None`. Trusted only to return a
/// string or none: the argument has no form here that a clause could speak
/// of, so nothing is said of the text.
#[verifier::external_body]
fn format_rfc3339(d: time::OffsetDateTime) -> Option<String> {
    d.format(&time::format_description::well_known::Rfc3339).ok()
}

/// Whether `year` is a leap year of the Gregorian calendar.
pub open spec fn is_leap_year(year: int) -> bool {
    (year % 4 == 0 && year % 100 != 0) || year % 400 == 0
}

/// The number of days of `month` (1 to 12) in `year`.
pub open spec fn days_in_month(year: int, month: int) -> int {
    if month == 2 {
        if is_leap_year(year) {
            29
        } else {
            28
        }
    } else if month == 4 || month == 6 || month == 9 || month == 11 {
        30
    } else {
        31
    }
}

/// Whether `year`, `month`, `day` name a day of the Gregorian calendar.
pub open spec fn is_calendar_date(year: int, month: int, day: int) -> bool {
    1 <= month <= 12 && 1 <= day <= days_in_month(year, month)
}

/// The four ASCII digits of `n`, for `0 <= n < 10000`.
pub open spec fn four_digit_chars(n: int) -> Seq<char> {
    seq![
        digit_char((n / 1000) as nat),
        digit_char(((n / 100) % 10) as nat),
        digit_char(((n / 10) % 10) as nat),
        digit_char((n % 10) as nat),
    ]
}

/// The RFC 3339 text of midnight UTC on the given day: `YYYY-MM-DD`, then
/// `T00:00:00Z`.
pub open spec fn rfc3339_utc_midnight(year: int, month: u8, day: u8) -> Seq<char> {
    four_digit_chars(year) + seq!['-'] + two_digit_chars(month) + seq!['-'] + two_digit_chars(day)
        + seq!['T', '0', '0', ':', '0', '0', ':', '0', '0', 'Z']
}

/// Calls `time::OffsetDateTime::date` and gives the date as year, month
/// number (`u8::from` of the month) and day. Trusted: `time` only represents
/// real days of the years -9999 to 9999 (without its `large-dates` feature).
#[verifier::external_body]
fn date_parts(d: &time::OffsetDateTime) -> (r: (i32, u8, u8))
    ensures
        -9999 <= r.0 <= 9999,
        is_calendar_date(r.0 as int, r.1 as int, r.2 as int),
{
    let date = d.date();
    (date.year(), u8::from(date.month()), date.day())
}

/// Calls `time::OffsetDateTime::format` with the RFC 3339 well-known format
/// on midnight UTC of the given day, built with `Month::try_from`,
/// `Date::from_calendar_date`, `Date::midnight` and `assume_utc`. Trusted:
/// the text is `YYYY-MM-DD` zero-padded, then `T00:00:00Z` (a zero
/// nanosecond writes no fraction, the UTC offset writes `Z`); it is there
/// exactly for real days of the years 0 to 9999, the years RFC 3339
/// formatting accepts.
#[verifier::external_body]
fn format_utc_midnight(year: i32, month: u8, day: u8) -> (r: Option<String>)
    ensures
        r is Some <==> (0 <= year <= 9999 && is_calendar_date(year as int, month as int, day as int)),
        r matches Some(t) ==> t@ == rfc3339_utc_midnight(year as int, month, day),
{
    let month = time::Month::try_from(month).ok()?;
    let date = time::Date::from_calendar_date(year, month, day).ok()?;
    date.midnight().assume_utc().format(&time::format_description::well_known::Rfc3339).ok()
}

/// Midnight UTC of a real day of the years 0 to 9999 is a valid timestamp.
pub proof fn lemma_utc_midnight_valid(year: int, month: u8, day: u8)
    requires
        0 <= year <= 9999,
        is_calendar_date(year, month as int, day as int),
    ensures
        is_valid_timestamp(rfc3339_utc_midnight(year, month, day)),
        rfc3339_utc_midnight(year, month, day).len() == 20,
{
    let s = rfc3339_utc_midnight(year, month, day);
    assert(s.len() == 20);
    assert(forall|k: int|
        0 <= k < 10 && k != 4 && k != 7 ==> '0' <= #[trigger] s[k] <= '9');
    assert(s[4] == '-' && s[7] == '-' && s[10] == 'T' && s[19] == 'Z');
    assert(forall|k: int| 0 <= k < s.len() ==> #[trigger] is_timestamp_char(s[k]));
    crate::text::lemma_find_from_at(s, 'T', 0, 10);
    let date = s.take(10);
    assert(forall|k: int| 0 <= k < date.len() ==> #[trigger] is_date_char(date[k]));
    assert(vstd::utf8::is_ascii_chars(date));
    crate::text::lemma_ascii_utf8_len(date);
    let p = s.skip(10).drop_last();
    assert(forall|k: int| 0 <= k < 9 ==> #[trigger] p[k] == s[10 + k]);
    lemma_plain_partial_time(p);
}

/// The timestamp for a formatted clock reading: the reading itself when it
/// is a valid timestamp, else the error that validation gives; without a
/// reading, an error with [`CLOCK_FORMAT_MESSAGE`].
pub fn timestamp_from_reading(reading: Option<String>) -> (r: Result<Timestamp, TimestampParseError>)
    ensures
        reading matches Some(s) ==> (r is Ok <==> is_valid_timestamp(s@)),
        reading matches Some(s) ==> (r matches Ok(t) ==> t@ == s@),
        reading is None ==> (r matches Err(e) && e@ == crate::timestamp::TimestampFailure::Other(
            CLOCK_FORMAT_MESSAGE@,
        )),
{
    match reading {
        Some(s) => Timestamp::new(s.as_str()),
        None => Err(TimestampParseError::Other(CLOCK_FORMAT_MESSAGE)),
    }
}

impl Timestamp {
    /// Create a timestamp corresponding to current time. It fails when the
    /// clock lies outside the years that `time` represents or RFC 3339 writes.
    pub fn now() -> (r: Result<Timestamp, TimestampParseError>)
        ensures
            r matches Ok(t) ==> is_valid_timestamp(t@),
    {
        let reading = match utc_now() {
            Some(d) => format_rfc3339(d),
            None => None,
        };
        timestamp_from_reading(reading)
    }

    /// Create a timestamp corresponding to the start of the current day. Timezone will always be UTC.
    ///
    /// It fails only when the clock's year lies before year 0, which RFC 3339
    /// cannot write, or outside the years that `time` represents.
    pub fn today() -> (r: Result<Timestamp, TimestampParseError>)
        ensures
            r matches Ok(t) ==> is_valid_timestamp(t@),
            r matches Ok(t) ==> t@.len() == 20 && t@.skip(10) == seq![
                'T',
                '0',
                '0',
                ':',
                '0',
                '0',
                ':',
                '0',
                '0',
                'Z',
            ],
            r matches Ok(t) ==> exists|year: int, month: u8, day: u8|
                #![trigger rfc3339_utc_midnight(year, month, day)]
                0 <= year <= 9999 && is_calendar_date(year, month as int, day as int) && t@
                    == rfc3339_utc_midnight(year, month, day),
            r matches Err(e) ==> e@ == TimestampFailure::Other(CLOCK_FORMAT_MESSAGE@),
    {
        match utc_now() {
            Some(d) => {
                let (year, month, day) = date_parts(&d);
                let r = Timestamp::midnight_utc(year, month, day);
                proof {
                    if r is Ok {
                        assert(exists|y: int, m: u8, dd: u8|
                            #![trigger rfc3339_utc_midnight(y, m, dd)]
                            0 <= y <= 9999 && is_calendar_date(y, m as int, dd as int)
                                && r->Ok_0@ == rfc3339_utc_midnight(y, m, dd));
                    }
                }
                r
            },
            None => timestamp_from_reading(None),
        }
    }

    /// The timestamp of midnight UTC on the given day, written as RFC 3339
    /// does: `YYYY-MM-DDT00:00:00Z`. It is there exactly for real days of the
    /// years 0 to 9999; otherwise the error carries [`CLOCK_FORMAT_MESSAGE`].
    pub fn midnight_utc(year: i32, month: u8, day: u8) -> (r: Result<Timestamp, TimestampParseError>)
        ensures
            r is Ok <==> (0 <= year <= 9999 && is_calendar_date(year as int, month as int, day as int)),
            r matches Ok(t) ==> t@ == rfc3339_utc_midnight(year as int, month, day),
            r matches Ok(t) ==> is_valid_timestamp(t@),
            r matches Err(e) ==> e@ == TimestampFailure::Other(CLOCK_FORMAT_MESSAGE@),
    {
        let reading = format_utc_midnight(year, month, day);
        proof {
            if reading is Some {
                lemma_utc_midnight_valid(year as int, month, day);
            }
        }
        timestamp_from_reading(reading)
    }
}

/// The number written by a sequence of ASCII digits.
pub open spec fn digits_value(s: Seq<char>) -> int
    decreases s.len(),
{
    if s.len() == 0 {
        0
    } else {
        digits_value(s.drop_last()) * 10 + (s.last() as int - 48)
    }
}

/// Midnight UTC of a day reads back as that day: its first four characters
/// write the year, the next two after a dash the month, the two after
/// another dash the day, and the time that follows is `T00:00:00Z`.
pub proof fn law_utc_midnight_fields(year: int, month: u8, day: u8)
    requires
        0 <= year <= 9999,
        is_calendar_date(year, month as int, day as int),
    ensures
        digits_value(rfc3339_utc_midnight(year, month, day).take(4)) == year,
        rfc3339_utc_midnight(year, month, day)[4] == '-',
        digits_value(rfc3339_utc_midnight(year, month, day).subrange(5, 7)) == month,
        rfc3339_utc_midnight(year, month, day)[7] == '-',
        digits_value(rfc3339_utc_midnight(year, month, day).subrange(8, 10)) == day,
        rfc3339_utc_midnight(year, month, day).skip(10) == seq![
            'T',
            '0',
            '0',
            ':',
            '0',
            '0',
            ':',
            '0',
            '0',
            'Z',
        ],
{
    let s = rfc3339_utc_midnight(year, month, day);
    reveal_with_fuel(digits_value, 5);
    let y = s.take(4);
    assert(y.drop_last().drop_last().drop_last().drop_last().len() == 0);
    assert(digits_value(y) == (((year / 1000) * 10 + (year / 100) % 10) * 10 + (year / 10) % 10)
        * 10 + year % 10);
    assert((((year / 1000) * 10 + (year / 100) % 10) * 10 + (year / 10) % 10) * 10 + year % 10
        == year) by (nonlinear_arith)
        requires
            0 <= year <= 9999,
    ;
    let m = s.subrange(5, 7);
    assert(digits_value(m) == (month / 10) * 10 + month % 10);
    let d = s.subrange(8, 10);
    assert(digits_value(d) == (day / 10) * 10 + day % 10);
    assert(s.skip(10) =~= seq!['T', '0', '0', ':', '0', '0', ':', '0', '0', 'Z']);
}

} // verus!
