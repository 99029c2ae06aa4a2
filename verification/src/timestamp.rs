//! Timestamps in the RFC 3339 layout with a `Z` offset: a light validation
//! of their text, time-of-day replacement and normalization.

use vstd::prelude::*;
use crate::text::{
    byte_len, char_is_numeric, chars_of, count_char, count_of, digit_char, find_char, find_from,
    is_numeric, string_push, utf8_len,
};

verus! {

/// Message of the error for timestamps whose offset is not `Z`.
pub const NON_UTC_MESSAGE: &'static str =
    "unsupported non-UTC timestamp, enable the `time` feature in `twitch_api2` to enable parsing these";

/// Errors that can occur when parsing a timestamp.
#[derive(Debug)]
pub enum TimestampParseError {
    /// A failure described by a fixed message.
    Other(&'static str),
    /// The timestamp has an invalid format; `s` is the part that failed, when
    /// one part is to blame.
    InvalidFormat {
        /// The part of the timestamp that failed.
        s: Option<String>,
    },
}

/// What a [`TimestampParseError`] says, as plain values.
pub enum TimestampFailure {
    /// A fixed message.
    Other(Seq<char>),
    /// Invalid format, with no part named.
    Invalid,
    /// Invalid format, naming the part that failed.
    InvalidPart(Seq<char>),
}

impl View for TimestampParseError {
    type V = TimestampFailure;

    open spec fn view(&self) -> TimestampFailure {
        match self {
            TimestampParseError::Other(m) => TimestampFailure::Other(m@),
            TimestampParseError::InvalidFormat { s: None } => TimestampFailure::Invalid,
            TimestampParseError::InvalidFormat { s: Some(p) } => TimestampFailure::InvalidPart(p@),
        }
    }
}

impl TimestampParseError {
    /// The error for a timestamp with no part to blame.
    fn invalid() -> (e: Self)
        ensures
            e@ == TimestampFailure::Invalid,
    {
        TimestampParseError::InvalidFormat { s: None }
    }

    /// The error naming the part `s` of the timestamp.
    fn invalid_s(s: &str) -> (e: Self)
        ensures
            e@ == TimestampFailure::InvalidPart(s@),
    {
        TimestampParseError::InvalidFormat { s: Some(s.to_owned()) }
    }
}

/// Characters a timestamp may hold at all.
pub open spec fn is_timestamp_char(c: char) -> bool {
    is_numeric(c) || c == 'T' || c == 'Z' || c == '+' || c == '.' || c == '-' || c == ':'
}

/// Characters the date part of a timestamp may hold.
pub open spec fn is_date_char(c: char) -> bool {
    is_numeric(c) || c == '-'
}

/// The checks a timestamp string must pass, in the order they are made, and
/// the failure that the first failing check reports.
///
/// The date is everything before the first `T` and must be 10 bytes of
/// digits and dashes; the time runs from that `T` to a final `Z`; without
/// the `Z` it is the partial time (`T` included), which holds exactly two
/// colons and is 9 bytes long, or has 9 bytes before its first `.`.
pub open spec fn timestamp_check(s: Seq<char>) -> Result<(), TimestampFailure> {
    let t = find_from(s, 'T', 0);
    if !(forall|i: int| 0 <= i < s.len() ==> #[trigger] is_timestamp_char(s[i])) {
        Err(TimestampFailure::Invalid)
    } else if t == s.len() || t < 1 {
        Err(TimestampFailure::Invalid)
    } else {
        let date = s.take(t);
        let time = s.skip(t);
        if utf8_len(date) != 10 {
            Err(TimestampFailure::InvalidPart(date))
        } else if !(forall|i: int| 0 <= i < date.len() ==> #[trigger] is_date_char(date[i])) {
            Err(TimestampFailure::InvalidPart(date))
        } else if time.last() != 'Z' {
            Err(TimestampFailure::Other(NON_UTC_MESSAGE@))
        } else {
            let partial = time.drop_last();
            let dot = find_from(partial, '.', 0);
            if count_of(partial, ':') != 2 {
                Err(TimestampFailure::InvalidPart(partial))
            } else if dot == partial.len() && utf8_len(partial) != 9 {
                Err(TimestampFailure::InvalidPart(partial))
            } else if dot < partial.len() && utf8_len(partial.take(dot)) != 9 {
                Err(TimestampFailure::InvalidPart(partial))
            } else {
                Ok(())
            }
        }
    }
}

/// Whether `s` is accepted as a timestamp.
pub open spec fn is_valid_timestamp(s: Seq<char>) -> bool {
    timestamp_check(s) is Ok
}

/// The two ASCII digit characters of `n`, for `n < 100`.
pub open spec fn two_digit_chars(n: u8) -> Seq<char> {
    seq![digit_char((n / 10) as nat), digit_char((n % 10) as nat)]
}

/// `s` with its whole partial time replaced: everything after the first `T`
/// becomes `HH:MM:SS` followed by `Z`, so any fraction of a second is gone.
pub open spec fn with_time_of_day(s: Seq<char>, hours: u8, minutes: u8, seconds: u8) -> Seq<char> {
    s.take(find_from(s, 'T', 0) + 1) + two_digit_chars(hours) + seq![':'] + two_digit_chars(
        minutes,
    ) + seq![':'] + two_digit_chars(seconds) + seq!['Z']
}

/// A partial time of the form `THH:MM:SS`, digits in place of `H`, `M`, `S`,
/// passes the partial-time checks: two colons, no `.`, nine bytes.
pub proof fn lemma_plain_partial_time(p: Seq<char>)
    requires
        p.len() == 9,
        p[0] == 'T',
        p[3] == ':',
        p[6] == ':',
        forall|k: int|
            0 < k < 9 && k != 3 && k != 6 ==> '0' <= #[trigger] p[k] <= '9',
    ensures
        count_of(p, ':') == 2,
        find_from(p, '.', 0) == p.len(),
        utf8_len(p) == 9,
{
    reveal_with_fuel(count_of, 10);
    assert(p[1] != ':' && p[2] != ':' && p[4] != ':' && p[5] != ':' && p[7] != ':' && p[8] != ':');
    assert(count_of(p, ':') == 2);
    crate::text::lemma_find_from_at(p, '.', 0, 9);
    assert(vstd::utf8::is_ascii_chars(p));
    crate::text::lemma_ascii_utf8_len(p);
}

/// Texts `DATE T HH:MM:SS` + `tail` + `Z` with a date of ten digits and
/// dashes, digits in the time, and a tail that is empty or a `.` followed
/// by digits, pass every check.
proof fn lemma_utc_layout_accepted(date: Seq<char>, hms: Seq<char>, tail: Seq<char>)
    requires
        date.len() == 10,
        forall|k: int| 0 <= k < 10 ==> ('0' <= #[trigger] date[k] <= '9' || date[k] == '-'),
        hms.len() == 8,
        hms[2] == ':',
        hms[5] == ':',
        forall|k: int| 0 <= k < 8 && k != 2 && k != 5 ==> '0' <= #[trigger] hms[k] <= '9',
        tail.len() == 0 || tail[0] == '.',
        forall|k: int| 1 <= k < tail.len() ==> '0' <= #[trigger] tail[k] <= '9',
    ensures
        is_valid_timestamp(date + seq!['T'] + hms + tail + seq!['Z']),
{
    let s = date + seq!['T'] + hms + tail + seq!['Z'];
    let n = s.len() as int;
    assert(n == 20 + tail.len());
    assert(forall|k: int| 0 <= k < 10 ==> #[trigger] s[k] == date[k]);
    assert(s[10] == 'T');
    assert(forall|k: int| 0 <= k < 8 ==> #[trigger] s[11 + k] == hms[k]);
    assert(forall|k: int| 0 <= k < tail.len() ==> #[trigger] s[19 + k] == tail[k]);
    assert(s[n - 1] == 'Z');
    assert forall|i: int| 0 <= i < n implies #[trigger] is_timestamp_char(s[i]) by {
        if i < 10 {
            assert(s[i] == date[i]);
        } else if 11 <= i < 19 {
            assert(s[i] == hms[i - 11]);
        } else if 19 <= i < n - 1 {
            assert(s[i] == tail[i - 19]);
        }
    }
    crate::text::lemma_find_from_at(s, 'T', 0, 10);
    let d = s.take(10);
    assert(d =~= date);
    assert(forall|k: int| 0 <= k < d.len() ==> #[trigger] is_date_char(d[k]));
    assert(vstd::utf8::is_ascii_chars(d));
    crate::text::lemma_ascii_utf8_len(d);
    let partial = s.skip(10).drop_last();
    let p9 = seq!['T'] + hms;
    assert(partial =~= p9 + tail);
    assert(forall|k: int| 0 < k < 9 ==> #[trigger] p9[k] == hms[k - 1]);
    lemma_plain_partial_time(p9);
    assert(forall|k: int| 0 <= k < tail.len() ==> #[trigger] tail[k] != ':');
    crate::text::lemma_count_of_absent(tail, ':');
    crate::text::lemma_count_of_concat(p9, tail, ':');
    crate::text::lemma_find_from(p9, '.', 0);
    if tail.len() == 0 {
        assert(partial =~= p9);
    } else {
        assert(forall|k: int| 0 <= k < 9 ==> #[trigger] partial[k] == p9[k]);
        assert(partial[9] == '.');
        crate::text::lemma_find_from_at(partial, '.', 0, 9);
        assert(partial.take(9) =~= p9);
    }
}

/// Every text `DATE T HH:MM:SS Z` is accepted, with the date ten ASCII
/// digits and dashes and the time of day in digits.
pub proof fn law_accepts_whole_seconds(date: Seq<char>, hms: Seq<char>)
    requires
        date.len() == 10,
        forall|k: int| 0 <= k < 10 ==> ('0' <= #[trigger] date[k] <= '9' || date[k] == '-'),
        hms.len() == 8,
        hms[2] == ':',
        hms[5] == ':',
        forall|k: int| 0 <= k < 8 && k != 2 && k != 5 ==> '0' <= #[trigger] hms[k] <= '9',
    ensures
        is_valid_timestamp(date + seq!['T'] + hms + seq!['Z']),
{
    lemma_utc_layout_accepted(date, hms, seq![]);
    assert(date + seq!['T'] + hms + seq![] =~= date + seq!['T'] + hms);
}

/// Every text `DATE T HH:MM:SS . DIGITS Z` is accepted, however many digits
/// the fraction of a second has.
pub proof fn law_accepts_fraction(date: Seq<char>, hms: Seq<char>, fraction: Seq<char>)
    requires
        date.len() == 10,
        forall|k: int| 0 <= k < 10 ==> ('0' <= #[trigger] date[k] <= '9' || date[k] == '-'),
        hms.len() == 8,
        hms[2] == ':',
        hms[5] == ':',
        forall|k: int| 0 <= k < 8 && k != 2 && k != 5 ==> '0' <= #[trigger] hms[k] <= '9',
        forall|k: int| 0 <= k < fraction.len() ==> '0' <= #[trigger] fraction[k] <= '9',
    ensures
        is_valid_timestamp(date + seq!['T'] + hms + seq!['.'] + fraction + seq!['Z']),
{
    let tail = seq!['.'] + fraction;
    assert(forall|k: int| 1 <= k < tail.len() ==> #[trigger] tail[k] == fraction[k - 1]);
    lemma_utc_layout_accepted(date, hms, tail);
    assert(date + seq!['T'] + hms + tail + seq!['Z'] =~= date + seq!['T'] + hms + seq!['.']
        + fraction + seq!['Z']);
}

/// Setting the time of a valid timestamp gives a valid timestamp with the
/// same date, the first `T` where it was, and the new time of day.
pub proof fn law_set_time_keeps_valid(s: Seq<char>, hours: u8, minutes: u8, seconds: u8)
    requires
        is_valid_timestamp(s),
        hours < 24,
        minutes < 60,
        seconds < 60,
    ensures
        is_valid_timestamp(with_time_of_day(s, hours, minutes, seconds)),
        find_from(with_time_of_day(s, hours, minutes, seconds), 'T', 0) == find_from(s, 'T', 0),
        with_time_of_day(s, hours, minutes, seconds).take(find_from(s, 'T', 0)) == s.take(
            find_from(s, 'T', 0),
        ),
{
    let t = find_from(s, 'T', 0);
    let r = with_time_of_day(s, hours, minutes, seconds);
    crate::text::lemma_find_from(s, 'T', 0);
    assert(r.len() == t + 10);
    assert(forall|k: int| 0 <= k <= t ==> #[trigger] r[k] == s[k]);
    assert(forall|k: int|
        t < k < t + 9 && k != t + 3 && k != t + 6 ==> '0' <= #[trigger] r[k] <= '9');
    assert(forall|i: int| 0 <= i < r.len() ==> #[trigger] is_timestamp_char(r[i])) by {
        assert forall|i: int| 0 <= i < r.len() implies #[trigger] is_timestamp_char(r[i]) by {
            if i <= t {
                assert(r[i] == s[i]);
                assert(is_timestamp_char(s[i]));
            }
        }
    }
    crate::text::lemma_find_from_at(r, 'T', 0, t);
    assert(r.take(t) =~= s.take(t));
    let p = r.skip(t).drop_last();
    assert(p.len() == 9);
    assert(forall|k: int| 0 <= k < 9 ==> #[trigger] p[k] == r[t + k]);
    lemma_plain_partial_time(p);
}

/// Setting the time twice is setting it once, to the second time.
pub proof fn law_set_time_last_wins(
    s: Seq<char>,
    h1: u8,
    m1: u8,
    s1: u8,
    h2: u8,
    m2: u8,
    s2: u8,
)
    requires
        is_valid_timestamp(s),
        h1 < 24,
        m1 < 60,
        s1 < 60,
    ensures
        with_time_of_day(with_time_of_day(s, h1, m1, s1), h2, m2, s2) == with_time_of_day(
            s,
            h2,
            m2,
            s2,
        ),
{
    law_set_time_keeps_valid(s, h1, m1, s1);
    let t = find_from(s, 'T', 0);
    crate::text::lemma_find_from(s, 'T', 0);
    let r = with_time_of_day(s, h1, m1, s1);
    assert(r.take(t + 1) =~= s.take(t + 1));
}

/// Taking the day of a day changes nothing.
pub proof fn law_to_day_idempotent(s: Seq<char>)
    requires
        is_valid_timestamp(s),
    ensures
        with_time_of_day(with_time_of_day(s, 0, 0, 0), 0, 0, 0) == with_time_of_day(s, 0, 0, 0),
{
    law_set_time_last_wins(s, 0, 0, 0, 0, 0, 0);
}

/// The name for what `time::OffsetDateTime::parse` with the RFC 3339
/// well-known format gives for the text `s`, its error turned into `None`.
pub uninterp spec fn rfc3339_parse(s: Seq<char>) -> Option<time::OffsetDateTime>;

/// Whether `time`'s RFC 3339 parser accepts the text `s`.
pub open spec fn parses_as_rfc3339(s: Seq<char>) -> bool {
    rfc3339_parse(s) is Some
}

/// Calls `time::OffsetDateTime::parse` with the RFC 3339 well-known format,
/// the parse error turned into `None`. Trusted: parsing depends on the text
/// alone, so the result is the name `rfc3339_parse` of the text; the date
/// and time it gives have no further form here.
#[verifier::external_body]
fn parse_rfc3339(s: &str) -> (r: Option<time::OffsetDateTime>)
    ensures
        r == rfc3339_parse(s@),
{
    time::OffsetDateTime::parse(s, &time::format_description::well_known::Rfc3339).ok()
}

/// Calls `time::OffsetDateTime::checked_to_offset` with `UtcOffset::UTC`:
/// the same moment in UTC, none when that falls outside `time`'s range.
/// Nothing is said of the result, which has no form here.
#[verifier::external_body]
fn checked_to_utc(d: time::OffsetDateTime) -> Option<time::OffsetDateTime> {
    d.checked_to_offset(time::UtcOffset::UTC)
}

/// A timestamp in the layout of RFC 3339 with a `Z` offset, as far as
/// [`Timestamp::validate`] checks it: its characters, the length of the date
/// and the shape of the time. The values of the fields (a month of 13, say)
/// are not checked.
#[derive(Debug, PartialEq, Eq, Hash)]
pub struct Timestamp(String);

impl Clone for Timestamp {
    fn clone(&self) -> (r: Self)
        ensures
            r@ == self@,
    {
        proof {
            use_type_invariant(self);
        }
        Timestamp(self.0.clone())
    }
}

impl View for Timestamp {
    type V = Seq<char>;

    closed spec fn view(&self) -> Seq<char> {
        self.0@
    }
}

impl Timestamp {
    /// Every timestamp is one that [`Timestamp::validate`] accepts.
    #[verifier::type_invariant]
    spec fn is_accepted(self) -> bool {
        is_valid_timestamp(self.0@)
    }

    /// Checks that `s` is a timestamp in the accepted format.
    pub fn validate(s: &str) -> (r: Result<(), TimestampParseError>)
        ensures
            r is Ok <==> timestamp_check(s@) is Ok,
            r matches Err(e) ==> timestamp_check(s@) == Err::<(), TimestampFailure>(e@),
    {
        let v = chars_of(s);
        let mut i: usize = 0;
        while i < v.len()
            invariant
                v@ == s@,
                i <= v.len(),
                forall|k: int| 0 <= k < i ==> #[trigger] is_timestamp_char(v@[k]),
            decreases v.len() - i,
        {
            let c = v[i];
            if !(char_is_numeric(c) || c == 'T' || c == 'Z' || c == '+' || c == '.' || c == '-'
                || c == ':') {
                assert(!is_timestamp_char(s@[i as int]));
                return Err(TimestampParseError::invalid());
            }
            i = i + 1;
        }
        let t = find_char(&v, 'T', 0);
        if t == v.len() || t < 1 {
            return Err(TimestampParseError::invalid());
        }
        let full_date = s.substring_char(0, t);
        if byte_len(full_date) != 10 {
            return Err(TimestampParseError::invalid_s(full_date));
        }
        let mut j: usize = 0;
        while j < t
            invariant
                v@ == s@,
                j <= t < v.len(),
                1 <= t,
                t == find_from(s@, 'T', 0),
                forall|k: int| 0 <= k < s@.len() ==> #[trigger] is_timestamp_char(s@[k]),
                full_date@ == s@.take(t as int),
                utf8_len(full_date@) == 10,
                forall|k: int| 0 <= k < j ==> #[trigger] is_date_char(full_date@[k]),
            decreases t - j,
        {
            let c = v[j];
            if !(char_is_numeric(c) || c == '-') {
                assert(!is_date_char(full_date@[j as int]));
                return Err(TimestampParseError::invalid_s(full_date));
            }
            j = j + 1;
        }
        let last = v.len() - 1;
        if v[last] != 'Z' {
            return Err(TimestampParseError::Other(NON_UTC_MESSAGE));
        }
        let partial_time = s.substring_char(t, last);
        assert(partial_time@ == s@.skip(t as int).drop_last());
        let pv = chars_of(partial_time);
        if count_char(&pv, ':') != 2 {
            return Err(TimestampParseError::invalid_s(partial_time));
        }
        let dot = find_char(&pv, '.', 0);
        if dot == pv.len() {
            if byte_len(partial_time) != 9 {
                return Err(TimestampParseError::invalid_s(partial_time));
            }
        } else {
            let seconds_part = partial_time.substring_char(0, dot);
            if byte_len(seconds_part) != 9 {
                return Err(TimestampParseError::invalid_s(partial_time));
            }
        }
        Ok(())
    }

    /// Constructs a new Timestamp if it conforms to the accepted format.
    pub fn new(s: &str) -> (r: Result<Timestamp, TimestampParseError>)
        ensures
            r is Ok <==> is_valid_timestamp(s@),
            r matches Ok(t) ==> t@ == s@,
            r matches Err(e) ==> timestamp_check(s@) == Err::<(), TimestampFailure>(e@),
    {
        match Self::validate(s) {
            Ok(()) => Ok(Timestamp(s.to_owned())),
            Err(e) => Err(e),
        }
    }

    /// Set the partial-time component of the timestamp: everything after the
    /// first `T` becomes `HH:MM:SS` followed by `Z`.
    pub fn set_time(&mut self, hours: u8, minutes: u8, seconds: u8)
        requires
            hours < 24,
            minutes < 60,
            seconds < 60,
        ensures
            final(self)@ == with_time_of_day(old(self)@, hours, minutes, seconds),
    {
        proof {
            use_type_invariant(&*self);
        }
        let ghost before = self@;
        let v = chars_of(self.0.as_str());
        let t = find_char(&v, 'T', 0);
        proof {
            crate::text::lemma_find_from(before, 'T', 0);
            law_set_time_keeps_valid(before, hours, minutes, seconds);
        }
        let mut s = self.0.as_str().substring_char(0, t + 1).to_owned();
        let h1 = (48u8 + hours / 10) as char;
        let h2 = (48u8 + hours % 10) as char;
        let m1 = (48u8 + minutes / 10) as char;
        let m2 = (48u8 + minutes % 10) as char;
        let s1 = (48u8 + seconds / 10) as char;
        let s2 = (48u8 + seconds % 10) as char;
        string_push(&mut s, h1);
        string_push(&mut s, h2);
        string_push(&mut s, ':');
        string_push(&mut s, m1);
        string_push(&mut s, m2);
        string_push(&mut s, ':');
        string_push(&mut s, s1);
        string_push(&mut s, s2);
        string_push(&mut s, 'Z');
        assert(s@ =~= with_time_of_day(before, hours, minutes, seconds));
        self.0 = s;
    }

    /// Make a timestamp with the time component set to 00:00:00.
    pub fn to_day(&self) -> (r: Timestamp)
        ensures
            r@ == with_time_of_day(self@, 0, 0, 0),
            is_valid_timestamp(r@),
    {
        proof {
            use_type_invariant(self);
            law_set_time_keeps_valid(self@, 0, 0, 0);
        }
        let mut c = Timestamp(self.0.clone());
        c.set_time(0, 0, 0);
        c
    }

    /// Provides access to the underlying value as a string slice.
    pub fn as_str(&self) -> (r: &str)
        ensures
            r@ == self@,
            is_valid_timestamp(r@),
    {
        proof {
            use_type_invariant(self);
        }
        self.0.as_str()
    }

    /// Construct into a [`time::OffsetDateTime`], parsing the text as
    /// RFC 3339; none when `time` does not accept it (for instance a month of
    /// 13, which the validator lets through).
    pub fn to_fixed_offset(&self) -> (r: Option<time::OffsetDateTime>)
        ensures
            r == rfc3339_parse(self@),
            r is Some <==> parses_as_rfc3339(self@),
    {
        parse_rfc3339(self.as_str())
    }

    /// Construct into a [`time::OffsetDateTime`] with a UTC offset; none
    /// when the text does not parse or the moment falls outside `time`'s
    /// range in UTC.
    pub fn to_utc(&self) -> (r: Option<time::OffsetDateTime>)
        ensures
            r is Some ==> parses_as_rfc3339(self@),
    {
        match self.to_fixed_offset() {
            Some(d) => checked_to_utc(d),
            None => None,
        }
    }

    /// Unwraps the underlying [`String`] value.
    pub fn into_string(self) -> (r: String)
        ensures
            r@ == self@,
            is_valid_timestamp(r@),
    {
        proof {
            use_type_invariant(&self);
        }
        self.0
    }
}

} // verus!
