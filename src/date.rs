use vstd::prelude::*;
use vstd::string::*;

verus! {

/// Errors reported by the task operations.
#[derive(Debug, Clone, Copy, PartialEq, Eq, Structural)]
pub enum TaskError {
    /// The due date is not a calendar date-time written `YYYY-MM-DD HH:MM:SS`.
    InvalidDate,
}

impl TaskError {
    /// A short human-readable description of the error.
    pub fn message(&self) -> (r: String)
        ensures
            r@ == "not a valid datetime."@,
    {
        proof {
            reveal_strlit("not a valid datetime.");
        }
        String::from_str("not a valid datetime.")
    }
}

/// Whether `c` is an ASCII decimal digit.
pub open spec fn is_digit(c: char) -> bool {
    '0' <= c && c <= '9'
}

/// The value of the decimal digit `c`.
pub open spec fn digit_value(c: char) -> nat {
    (c as u32 - '0' as u32) as nat
}

/// What the character at index `i` of a `YYYY-MM-DD HH:MM:SS` string must be.
pub open spec fn fits_shape_at(i: int, c: char) -> bool {
    if i == 4 || i == 7 {
        c == '-'
    } else if i == 10 {
        c == ' '
    } else if i == 13 || i == 16 {
        c == ':'
    } else {
        is_digit(c)
    }
}

/// `s` is written exactly `YYYY-MM-DD HH:MM:SS`: nineteen characters, digits
/// and the separators in their places.
pub open spec fn has_datetime_shape(s: Seq<char>) -> bool {
    s.len() == 19 && forall|i: int| 0 <= i < 19 ==> #[trigger] fits_shape_at(i, s[i])
}

/// The decimal number written by the `len` characters of `s` from `start`.
pub open spec fn number_at(s: Seq<char>, start: int, len: nat) -> nat
    decreases len,
{
    if len == 0 {
        0
    } else {
        number_at(s, start, (len - 1) as nat) * 10 + digit_value(s[start + len - 1])
    }
}

/// Whether chrono reads `s` as a `NaiveDateTime` in the format `%Y-%m-%d %H:%M:%S`.
pub uninterp spec fn naive_datetime_parses(s: Seq<char>) -> bool;

/// Relies on chrono's `NaiveDateTime::parse_from_str`: whether the text is a
/// valid calendar date and time of day in the format `%Y-%m-%d %H:%M:%S`.
/// The outcome depends on the text alone.
#[verifier::external_body]
fn parses_as_datetime(s: &str) -> (r: bool)
    ensures
        r == naive_datetime_parses(s@),
{
    chrono::NaiveDateTime::parse_from_str(s, "%Y-%m-%d %H:%M:%S").is_ok()
}

/// A non-empty due date is accepted when it has the exact shape and names a
/// real calendar date-time; the empty date means "no due date".
pub open spec fn date_is_valid(s: Seq<char>) -> bool {
    s.len() == 0 || (has_datetime_shape(s) && naive_datetime_parses(s))
}

/// Whether `s` is written exactly `YYYY-MM-DD HH:MM:SS` (digits and
/// separators only; calendar validity is not checked here).
pub fn matches_datetime_shape(s: &str) -> (r: bool)
    ensures
        r == has_datetime_shape(s@),
{
    let n = s.unicode_len();
    if n != 19 {
        return false;
    }
    let mut i: usize = 0;
    while i < 19
        invariant
            n == 19,
            s@.len() == 19,
            i <= 19,
            forall|j: int| 0 <= j < i ==> #[trigger] fits_shape_at(j, s@[j]),
        decreases 19 - i,
    {
        let c = s.get_char(i);
        let ok = if i == 4 || i == 7 {
            c == '-'
        } else if i == 10 {
            c == ' '
        } else if i == 13 || i == 16 {
            c == ':'
        } else {
            '0' <= c && c <= '9'
        };
        if !ok {
            assert(!fits_shape_at(i as int, s@[i as int]));
            return false;
        }
        i = i + 1;
    }
    true
}

/// Checks a due date: the empty string is always accepted, anything else
/// must be a valid date-time written exactly `YYYY-MM-DD HH:MM:SS`.
pub fn validate_date(date: &str) -> (r: Result<(), TaskError>)
    ensures
        r.is_ok() <==> date_is_valid(date@),
        r.is_err() ==> r == Err::<(), TaskError>(TaskError::InvalidDate),
{
    if date.unicode_len() == 0 {
        return Ok(());
    }
    if matches_datetime_shape(date) && parses_as_datetime(date) {
        Ok(())
    } else {
        Err(TaskError::InvalidDate)
    }
}

/// A wall-clock date and time of day, without a time zone.
#[derive(Debug, Clone, Copy, PartialEq, Eq, Structural)]
pub struct DateTime {
    pub year: u32,
    pub month: u32,
    pub day: u32,
    pub hour: u32,
    pub minute: u32,
    pub second: u32,
}

impl DateTime {
    /// `self` comes no later than `other`, comparing the fields from the
    /// year down to the second.
    pub open spec fn spec_not_after(self, other: DateTime) -> bool {
        if self.year != other.year {
            self.year < other.year
        } else if self.month != other.month {
            self.month < other.month
        } else if self.day != other.day {
            self.day < other.day
        } else if self.hour != other.hour {
            self.hour < other.hour
        } else if self.minute != other.minute {
            self.minute < other.minute
        } else {
            self.second <= other.second
        }
    }

    /// Whether `self` comes no later than `other`.
    pub fn not_after(&self, other: &DateTime) -> (r: bool)
        ensures
            r == self.spec_not_after(*other),
    {
        if self.year != other.year {
            self.year < other.year
        } else if self.month != other.month {
            self.month < other.month
        } else if self.day != other.day {
            self.day < other.day
        } else if self.hour != other.hour {
            self.hour < other.hour
        } else if self.minute != other.minute {
            self.minute < other.minute
        } else {
            self.second <= other.second
        }
    }
}

/// The fields written in a `YYYY-MM-DD HH:MM:SS` string.
pub open spec fn fields_of(s: Seq<char>) -> DateTime {
    DateTime {
        year: number_at(s, 0, 4) as u32,
        month: number_at(s, 5, 2) as u32,
        day: number_at(s, 8, 2) as u32,
        hour: number_at(s, 11, 2) as u32,
        minute: number_at(s, 14, 2) as u32,
        second: number_at(s, 17, 2) as u32,
    }
}

/// A task due at `date` is late at local time `now`: the date is present,
/// valid, and not after `now`.
pub open spec fn late_at(date: Seq<char>, now: DateTime) -> bool {
    date.len() > 0 && has_datetime_shape(date) && naive_datetime_parses(date)
        && fields_of(date).spec_not_after(now)
}

proof fn lemma_number_bound(s: Seq<char>, start: int, len: nat)
    requires
        forall|i: int| start <= i < start + len ==> is_digit(#[trigger] s[i]),
    ensures
        number_at(s, start, len) < pow10(len),
    decreases len,
{
    if len > 0 {
        lemma_number_bound(s, start, (len - 1) as nat);
        assert(is_digit(s[start + len - 1]));
    }
}

/// Ten to the power `n`.
pub open spec fn pow10(n: nat) -> nat
    decreases n,
{
    if n == 0 {
        1
    } else {
        10 * pow10((n - 1) as nat)
    }
}

/// Reads the `len` decimal digits of `s` starting at `start`.
fn read_number(s: &str, start: usize, len: usize) -> (r: u32)
    requires
        len <= 4,
        start + len <= 19,
        start + len <= s@.len(),
        forall|i: int| start <= i < start + len ==> is_digit(#[trigger] s@[i]),
    ensures
        r == number_at(s@, start as int, len as nat),
{
    let mut value: u32 = 0;
    let mut k: usize = 0;
    while k < len
        invariant
            k <= len,
            len <= 4,
            start + len <= 19,
            start + len <= s@.len(),
            forall|i: int| start <= i < start + len ==> is_digit(#[trigger] s@[i]),
            value == number_at(s@, start as int, k as nat),
        decreases len - k,
    {
        proof {
            lemma_number_bound(s@, start as int, k as nat);
            assert(pow10(k as nat) <= 1000) by {
                reveal_with_fuel(pow10, 4);
            }
        }
        let c = s.get_char(start + k);
        assert(is_digit(s@[start + k]));
        value = value * 10 + (c as u32 - '0' as u32);
        k = k + 1;
    }
    value
}

/// Reads the fields of a date written exactly `YYYY-MM-DD HH:MM:SS`.
pub fn read_fields(s: &str) -> (r: DateTime)
    requires
        has_datetime_shape(s@),
    ensures
        r == fields_of(s@),
{
    proof {
        assert forall|i: int| 0 <= i < 4 || 5 <= i < 7 || 8 <= i < 10 || 11 <= i < 13
            || 14 <= i < 16 || 17 <= i < 19 implies is_digit(s@[i]) by {
            assert(fits_shape_at(i, s@[i]));
        }
    }
    DateTime {
        year: read_number(s, 0, 4),
        month: read_number(s, 5, 2),
        day: read_number(s, 8, 2),
        hour: read_number(s, 11, 2),
        minute: read_number(s, 14, 2),
        second: read_number(s, 17, 2),
    }
}

/// Whether a task due at `date` is late at the local wall-clock time `now`:
/// never when the date is empty (or not a valid date), otherwise exactly
/// when `now` has reached the due date.
pub fn is_late(date: &str, now: &DateTime) -> (r: bool)
    ensures
        r == late_at(date@, *now),
{
    if date.unicode_len() == 0 {
        return false;
    }
    if !matches_datetime_shape(date) || !parses_as_datetime(date) {
        return false;
    }
    let due = read_fields(date);
    due.not_after(now)
}

/// A task with no due date is never late, whatever the time.
pub proof fn lemma_empty_date_never_late(now: DateTime)
    ensures
        !late_at(Seq::<char>::empty(), now),
{
}

} // verus!
