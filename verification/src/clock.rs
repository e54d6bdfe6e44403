//! Times of day as text: reading `HH:MM`, validating it, and writing it.

use vstd::prelude::*;
use vstd::string::*;
use crate::text::{chars_of, push_char};

verus! {

/// Why a text is no time of day.
#[derive(Clone, Copy, Debug, PartialEq, Eq, Structural)]
pub enum ValidationError {
    /// The text is not two numbers with one colon between them.
    BadFormat,
    /// The hour is 24 or more.
    BadHour,
    /// The minute is 60 or more.
    BadMinute,
}

impl ValidationError {
    /// The message that tells the user what is wrong.
    pub open spec fn message_text(self) -> Seq<char> {
        match self {
            ValidationError::BadFormat => "Invalid format. Use HH:MM"@,
            ValidationError::BadHour => "Hour must be 0-23"@,
            ValidationError::BadMinute => "Minute must be 0-59"@,
        }
    }

    /// The message that tells the user what is wrong.
    pub fn message(&self) -> (message: String)
        ensures
            message@ == self.message_text(),
    {
        match self {
            ValidationError::BadFormat => String::from_str("Invalid format. Use HH:MM"),
            ValidationError::BadHour => String::from_str("Hour must be 0-23"),
            ValidationError::BadMinute => String::from_str("Minute must be 0-59"),
        }
    }
}

/// Whether a character is one of `0` to `9`.
pub open spec fn is_digit(c: char) -> bool {
    '0' <= c <= '9'
}

/// The value of a digit.
pub open spec fn digit_value(c: char) -> nat {
    (c as int - '0' as int) as nat
}

/// Whether a text is a number: one digit or more, and nothing else.
pub open spec fn is_number(s: Seq<char>) -> bool {
    s.len() > 0 && forall|k: int| 0 <= k < s.len() ==> is_digit(#[trigger] s[k])
}

/// The value of a text of digits, read as a decimal number.
pub open spec fn number_of(s: Seq<char>) -> nat
    decreases s.len(),
{
    if s.len() == 0 {
        0
    } else {
        number_of(s.drop_last()) * 10 + digit_value(s.last())
    }
}

/// How many characters stand before the first colon: all of them, if the
/// text has no colon.
pub open spec fn before_colon(s: Seq<char>) -> nat
    decreases s.len(),
{
    if s.len() == 0 || s[0] == ':' {
        0
    } else {
        1 + before_colon(s.drop_first())
    }
}

/// What stands before the first colon.
pub open spec fn hour_text(s: Seq<char>) -> Seq<char> {
    s.take(before_colon(s) as int)
}

/// What stands after the first colon.
pub open spec fn minute_text(s: Seq<char>) -> Seq<char> {
    s.skip(before_colon(s) as int + 1)
}

/// Whether a text has the form of a time: a number, a colon, a number.
pub open spec fn is_time_text(s: Seq<char>) -> bool {
    &&& before_colon(s) < s.len()
    &&& is_number(hour_text(s))
    &&& is_number(minute_text(s))
}

/// What validating a text as a time of day gives: the seconds since midnight
/// of a well-formed time with an hour below 24 and a minute below 60, and
/// otherwise the first thing that is wrong with it, the form before the hour
/// and the hour before the minute.
pub open spec fn validated(s: Seq<char>) -> Result<u32, ValidationError> {
    if !is_time_text(s) {
        Err(ValidationError::BadFormat)
    } else if number_of(hour_text(s)) >= 24 {
        Err(ValidationError::BadHour)
    } else if number_of(minute_text(s)) >= 60 {
        Err(ValidationError::BadMinute)
    } else {
        Ok((number_of(hour_text(s)) * 3600 + number_of(minute_text(s)) * 60) as u32)
    }
}

/// A colon with no colon before it is the first one, and a text without a
/// colon has all its characters before the first.
pub proof fn lemma_before_colon(s: Seq<char>, k: nat)
    requires
        k <= s.len(),
        forall|j: int| 0 <= j < k ==> s[j] != ':',
        k == s.len() || s[k as int] == ':',
    ensures
        before_colon(s) == k,
    decreases k,
{
    if k > 0 {
        let rest = s.drop_first();
        assert forall|j: int| 0 <= j < k - 1 implies rest[j] != ':' by {
            assert(rest[j] == s[j + 1]);
        }
        lemma_before_colon(rest, (k - 1) as nat);
    }
}

/// The largest value that reading a number keeps apart: every number above
/// it is read as this.
pub const NUMBER_CAP: u64 = 4294967296;

/// The value of a digit.
fn digit_of(c: char) -> (value: u64)
    requires
        is_digit(c),
    ensures
        value == digit_value(c),
        value <= 9,
{
    (c as u32 - '0' as u32) as u64
}

/// Where the first colon at or after `from` stands: the length, if there is
/// none.
fn find_colon(chars: &Vec<char>, from: usize) -> (at: usize)
    requires
        from <= chars@.len(),
    ensures
        from <= at <= chars@.len(),
        at - from == before_colon(chars@.skip(from as int)),
{
    let mut at = from;
    while at < chars.len() && chars[at] != ':'
        invariant
            from <= at <= chars@.len(),
            forall|j: int| from <= j < at ==> chars@[j] != ':',
        decreases chars@.len() - at,
    {
        at += 1;
    }
    proof {
        lemma_before_colon(chars@.skip(from as int), (at - from) as nat);
    }
    at
}

/// Reads the characters from `from` up to `to` as a number. Says whether
/// they are one, and gives its value, or `NUMBER_CAP` if the value is larger.
fn scan_number(chars: &Vec<char>, from: usize, to: usize) -> (scanned: (bool, u64))
    requires
        from <= to <= chars@.len(),
    ensures
        scanned.0 == is_number(chars@.subrange(from as int, to as int)),
        scanned.0 ==> scanned.1 == (if number_of(chars@.subrange(from as int, to as int))
            < NUMBER_CAP {
            number_of(chars@.subrange(from as int, to as int))
        } else {
            NUMBER_CAP as nat
        }),
{
    let ghost field = chars@.subrange(from as int, to as int);
    if from == to {
        return (false, 0);
    }
    let mut value: u64 = 0;
    let mut next = from;
    while next < to
        invariant
            from <= next <= to <= chars@.len(),
            field == chars@.subrange(from as int, to as int),
            forall|k: int| 0 <= k < next - from ==> is_digit(#[trigger] field[k]),
            value <= NUMBER_CAP,
            value == (if number_of(field.take(next - from)) < NUMBER_CAP {
                number_of(field.take(next - from))
            } else {
                NUMBER_CAP as nat
            }),
        decreases to - next,
    {
        let c = chars[next];
        assert(field[next - from] == c);
        if !(c >= '0' && c <= '9') {
            return (false, 0);
        }
        let digit = digit_of(c);
        proof {
            let longer = field.take(next + 1 - from);
            assert(longer.drop_last() =~= field.take(next - from));
            assert(longer.last() == c);
        }
        value = value * 10 + digit;
        if value > NUMBER_CAP {
            value = NUMBER_CAP;
        }
        next += 1;
    }
    assert(field.take(to - from) =~= field);
    (true, value)
}

/// Validates a text as a time of day, `HH:MM` on a 24-hour clock, and gives
/// its seconds since midnight.
pub fn validate_time(time_str: &str) -> (result: Result<u32, ValidationError>)
    ensures
        result == validated(time_str@),
{
    let chars = chars_of(time_str);
    let colon = find_colon(&chars, 0);
    assert(chars@.skip(0) =~= chars@);
    if colon >= chars.len() {
        return Err(ValidationError::BadFormat);
    }
    assert(chars@.subrange(0, colon as int) =~= hour_text(time_str@));
    assert(chars@.subrange(colon + 1, chars@.len() as int) =~= minute_text(time_str@));
    let (hour_ok, hour) = scan_number(&chars, 0, colon);
    let (minute_ok, minute) = scan_number(&chars, colon + 1, chars.len());
    if !hour_ok || !minute_ok {
        return Err(ValidationError::BadFormat);
    }
    if hour >= 24 {
        return Err(ValidationError::BadHour);
    }
    if minute >= 60 {
        return Err(ValidationError::BadMinute);
    }
    Ok((hour * 3600 + minute * 60) as u32)
}

/// The value that a field of a stored time stands for: its value if it is a
/// number that fits in 32 bits, and zero if it is anything else.
pub open spec fn lenient(field: Seq<char>) -> nat {
    if is_number(field) && number_of(field) <= u32::MAX {
        number_of(field)
    } else {
        0
    }
}

/// The seconds since midnight that a stored time stands for. A text with
/// exactly one colon stands for its hours and minutes, each read leniently;
/// any other text stands for midnight.
pub open spec fn seconds_of(s: Seq<char>) -> nat {
    if before_colon(s) < s.len() && before_colon(minute_text(s)) == minute_text(s).len() {
        lenient(hour_text(s)) * 3600 + lenient(minute_text(s)) * 60
    } else {
        0
    }
}

/// Reads a stored time as seconds since midnight, without refusing anything.
pub fn parse_time(time_str: &str) -> (seconds: u64)
    ensures
        seconds == seconds_of(time_str@),
{
    let chars = chars_of(time_str);
    let colon = find_colon(&chars, 0);
    assert(chars@.skip(0) =~= chars@);
    if colon >= chars.len() {
        return 0;
    }
    let second_colon = find_colon(&chars, colon + 1);
    if second_colon < chars.len() {
        return 0;
    }
    assert(chars@.subrange(0, colon as int) =~= hour_text(time_str@));
    assert(chars@.subrange(colon + 1, chars@.len() as int) =~= minute_text(time_str@));
    let (hour_ok, hour) = scan_number(&chars, 0, colon);
    let (minute_ok, minute) = scan_number(&chars, colon + 1, chars.len());
    let hours: u64 = if hour_ok && hour < NUMBER_CAP {
        hour
    } else {
        0
    };
    let minutes: u64 = if minute_ok && minute < NUMBER_CAP {
        minute
    } else {
        0
    };
    hours * 3600 + minutes * 60
}

/// The character of a digit.
pub open spec fn digit_char(d: nat) -> char {
    ('0' as int + d) as char
}

/// A number in decimal, without leading zeros.
pub open spec fn decimal(n: nat) -> Seq<char>
    decreases n,
{
    if n < 10 {
        seq![digit_char(n)]
    } else {
        decimal(n / 10).push(digit_char(n % 10))
    }
}

/// A number in decimal, in two digits at least.
pub open spec fn two_digits(n: nat) -> Seq<char> {
    if n < 10 {
        seq!['0'] + decimal(n)
    } else {
        decimal(n)
    }
}

/// Hours and minutes as `HH:MM`.
pub open spec fn clock_text(hours: nat, minutes: nat) -> Seq<char> {
    two_digits(hours) + seq![':'] + two_digits(minutes)
}

/// Seconds as the `HH:MM` of their whole hours and the whole minutes left.
pub open spec fn clock_text_of(seconds: nat) -> Seq<char> {
    clock_text(seconds / 3600, (seconds % 3600) / 60)
}

fn digit_to_char(d: u64) -> (c: char)
    requires
        d < 10,
    ensures
        c == digit_char(d as nat),
{
    (('0' as u8) + (d as u8)) as char
}

fn push_decimal(out: &mut String, n: u64)
    ensures
        final(out)@ == old(out)@ + decimal(n as nat),
    decreases n,
{
    if n >= 10 {
        push_decimal(out, n / 10);
    }
    push_char(out, digit_to_char(n % 10));
    assert(out@ =~= old(out)@ + decimal(n as nat));
}

fn push_two_digits(out: &mut String, n: u64)
    ensures
        final(out)@ == old(out)@ + two_digits(n as nat),
{
    if n < 10 {
        push_char(out, '0');
    }
    push_decimal(out, n);
    assert(out@ =~= old(out)@ + two_digits(n as nat));
}

/// Writes seconds since midnight as `HH:MM`: the whole hours, then the whole
/// minutes that are left, each in two digits at least.
pub fn format_time(seconds: u64) -> (text: String)
    ensures
        text@ == clock_text_of(seconds as nat),
{
    let mut text = String::new();
    push_two_digits(&mut text, seconds / 3600);
    push_char(&mut text, ':');
    push_two_digits(&mut text, (seconds % 3600) / 60);
    assert(text@ =~= clock_text_of(seconds as nat));
    text
}

/// Where a text has a colon, a colon stands at the place that
/// `before_colon` gives.
pub proof fn lemma_colon_stands(s: Seq<char>)
    requires
        before_colon(s) < s.len(),
    ensures
        s[before_colon(s) as int] == ':',
    decreases s.len(),
{
    if s[0] != ':' {
        lemma_colon_stands(s.drop_first());
    }
}

/// A text has the form of a time exactly when it is a number, a colon and a
/// number: two numeric fields with one colon between them.
pub proof fn lemma_time_text_shape(s: Seq<char>)
    ensures
        is_time_text(s) <==> exists|hour: Seq<char>, minute: Seq<char>|
            is_number(hour) && is_number(minute) && s == #[trigger] (hour + seq![':'] + minute),
{
    if is_time_text(s) {
        lemma_colon_stands(s);
        assert(s =~= hour_text(s) + seq![':'] + minute_text(s));
    }
    if exists|hour: Seq<char>, minute: Seq<char>|
        is_number(hour) && is_number(minute) && s == #[trigger] (hour + seq![':'] + minute) {
        let (hour, minute) = choose|hour: Seq<char>, minute: Seq<char>|
            is_number(hour) && is_number(minute) && s == #[trigger] (hour + seq![':'] + minute);
        assert forall|j: int| 0 <= j < hour.len() implies s[j] != ':' by {
            assert(s[j] == hour[j]);
        }
        assert(s[hour.len() as int] == ':');
        lemma_before_colon(s, hour.len());
        assert(hour_text(s) =~= hour);
        assert(minute_text(s) =~= minute);
    }
}

/// How a text fails validation. It fails on its form exactly when it is not
/// two numeric fields with a colon between them; on its hour exactly when
/// the form is right and the hour is 24 or more; on its minute exactly when
/// form and hour are right and the minute is 60 or more. Every other text
/// passes.
pub proof fn lemma_validation_errors(s: Seq<char>)
    ensures
        validated(s) == Err::<u32, ValidationError>(ValidationError::BadFormat) <==> !is_time_text(
            s,
        ),
        validated(s) == Err::<u32, ValidationError>(ValidationError::BadHour) <==> is_time_text(s)
            && number_of(hour_text(s)) >= 24,
        validated(s) == Err::<u32, ValidationError>(ValidationError::BadMinute) <==> is_time_text(
            s,
        ) && number_of(hour_text(s)) < 24 && number_of(minute_text(s)) >= 60,
        validated(s) is Ok <==> is_time_text(s) && number_of(hour_text(s)) < 24 && number_of(
            minute_text(s),
        ) < 60,
{
}

/// A time of day written as `HH:MM`, two digits each, with an hour below 24
/// and a minute below 60, is valid, and the seconds that validation
/// gives are written back as the same text.
pub proof fn lemma_time_round_trip(s: Seq<char>)
    requires
        s.len() == 5,
        is_digit(s[0]),
        is_digit(s[1]),
        s[2] == ':',
        is_digit(s[3]),
        is_digit(s[4]),
        digit_value(s[0]) * 10 + digit_value(s[1]) < 24,
        digit_value(s[3]) * 10 + digit_value(s[4]) < 60,
    ensures
        validated(s) == Ok::<u32, ValidationError>(
            ((digit_value(s[0]) * 10 + digit_value(s[1])) * 3600 + (digit_value(s[3]) * 10
                + digit_value(s[4])) * 60) as u32,
        ),
        validated(s) matches Ok(seconds) && clock_text_of(seconds as nat) == s,
{
    let hours = digit_value(s[0]) * 10 + digit_value(s[1]);
    let minutes = digit_value(s[3]) * 10 + digit_value(s[4]);
    lemma_before_colon(s, 2);
    let hour = hour_text(s);
    let minute = minute_text(s);
    assert(hour =~= seq![s[0], s[1]]);
    assert(minute =~= seq![s[3], s[4]]);
    lemma_number_of_two(s[0], s[1]);
    lemma_number_of_two(s[3], s[4]);
    let seconds = hours * 3600 + minutes * 60;
    assert(seconds / 3600 == hours);
    assert((seconds % 3600) / 60 == minutes);
    lemma_two_digits(s[0], s[1]);
    lemma_two_digits(s[3], s[4]);
    assert(clock_text(hours, minutes) =~= s);
}

/// The value of a text of two digits.
proof fn lemma_number_of_two(tens: char, ones: char)
    ensures
        number_of(seq![tens, ones]) == digit_value(tens) * 10 + digit_value(ones),
{
    let both = seq![tens, ones];
    assert(both.drop_last() =~= seq![tens]);
    assert(seq![tens].drop_last() =~= Seq::<char>::empty());
    assert(number_of(seq![tens]) == digit_value(tens)) by {
        reveal_with_fuel(number_of, 2);
    }
}

/// Two digits are how their value is written in two digits.
proof fn lemma_two_digits(tens: char, ones: char)
    requires
        is_digit(tens),
        is_digit(ones),
    ensures
        two_digits(digit_value(tens) * 10 + digit_value(ones)) == seq![tens, ones],
{
    let n = digit_value(tens) * 10 + digit_value(ones);
    assert(digit_char(digit_value(tens)) == tens);
    assert(digit_char(digit_value(ones)) == ones);
    if n < 10 {
        assert(two_digits(n) =~= seq![tens, ones]);
    } else {
        assert(n / 10 == digit_value(tens));
        assert(n % 10 == digit_value(ones));
        assert(decimal(n / 10) =~= seq![tens]);
        assert(two_digits(n) =~= seq![tens, ones]);
    }
}

/// What is written for a moment of the day is a valid time: that of the
/// minute in which the moment lies.
pub proof fn lemma_written_time_is_valid(seconds: nat)
    requires
        seconds < 86400,
    ensures
        validated(clock_text_of(seconds)) == Ok::<u32, ValidationError>(
            (seconds - seconds % 60) as u32,
        ),
{
    let hours = seconds / 3600;
    let minutes = (seconds % 3600) / 60;
    let s = clock_text_of(seconds);
    let h1 = digit_char(hours / 10);
    let h0 = digit_char(hours % 10);
    let m1 = digit_char(minutes / 10);
    let m0 = digit_char(minutes % 10);
    assert(two_digits(hours) =~= seq![h1, h0]) by {
        if hours >= 10 {
            assert(decimal(hours / 10) =~= seq![h1]);
        } else {
            assert(h1 == '0');
        }
    }
    assert(two_digits(minutes) =~= seq![m1, m0]) by {
        if minutes >= 10 {
            assert(decimal(minutes / 10) =~= seq![m1]);
        } else {
            assert(m1 == '0');
        }
    }
    assert(s =~= seq![h1, h0, ':', m1, m0]);
    assert(digit_value(h1) == hours / 10 && digit_value(h0) == hours % 10);
    assert(digit_value(m1) == minutes / 10 && digit_value(m0) == minutes % 10);
    lemma_time_round_trip(s);
    assert(hours * 3600 + minutes * 60 == seconds - seconds % 60);
}

/// A valid text is read back, as a stored time, as the seconds that
/// validation gave.
pub proof fn lemma_valid_time_reads_back(s: Seq<char>)
    requires
        validated(s) is Ok,
    ensures
        validated(s) == Ok::<u32, ValidationError>(seconds_of(s) as u32),
        seconds_of(s) < 86400,
{
    let minute = minute_text(s);
    assert forall|j: int| 0 <= j < minute.len() implies minute[j] != ':' by {
        assert(is_digit(minute[j]));
    }
    lemma_before_colon(minute, minute.len());
}

} // verus!
