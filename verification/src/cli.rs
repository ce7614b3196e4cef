//! The command line: its commands, the options shared by all of them, and
//! how duration options are read.

use vstd::prelude::*;
use crate::submit::SubmissionLanguage;

verus! {

/// Options that every command takes. Durations are in milliseconds.
pub struct Args {
    pub timeout: Option<u64>,
    pub poll_interval: Option<u64>,
    pub max_retries: Option<u32>,
}

/// The commands of the client.
pub enum Command {
    /// Log in, or log out when `logout` is set.
    Login { logout: bool },
    /// Choose the course to submit to.
    Course { course_id: Option<u32> },
    /// Submit code, from a file or from standard input.
    Submit {
        course_id: Option<u32>,
        question_code: Option<String>,
        language: Option<SubmissionLanguage>,
        file: Option<String>,
        stdin: bool,
    },
}

/// A parsed command line.
pub struct Cli {
    pub command: Command,
    pub args: Args,
}

#[verifier::external_type_specification]
#[verifier::external_body]
pub struct ExDurationError(humantime::DurationError);

/// What `humantime::parse_duration` makes of a text: whole seconds and
/// nanoseconds, or nothing when the text is refused.
pub uninterp spec fn human_duration(text: Seq<char>) -> Option<(u64, u32)>;

/// The most decimal digits a duration option may hold.
pub const MAX_DURATION_DIGITS: usize = 10;

/// `c` is one of the ASCII digits `0` to `9`.
pub open spec fn is_ascii_digit(c: char) -> bool {
    '0' <= c <= '9'
}

/// The number of ASCII digits in `s`.
pub open spec fn digit_count(s: Seq<char>) -> nat
    decreases s.len(),
{
    if s.len() == 0 {
        0
    } else {
        digit_count(s.drop_last()) + if is_ascii_digit(s.last()) {
            1nat
        } else {
            0nat
        }
    }
}

/// Counts the ASCII digits in `text`.
pub fn count_digits(text: &str) -> (r: usize)
    ensures
        r == digit_count(text@),
{
    let n: usize = text.unicode_len();
    let mut count: usize = 0;
    let mut i: usize = 0;
    assert(text@.subrange(0, 0) =~= Seq::<char>::empty());
    while i < n
        invariant
            n == text@.len(),
            i <= n,
            count <= i,
            count == digit_count(text@.subrange(0, i as int)),
        decreases n - i,
    {
        let c: char = text.get_char(i);
        assert(text@.subrange(0, i + 1).drop_last() =~= text@.subrange(0, i as int));
        if '0' <= c && c <= '9' {
            count = count + 1;
        }
        i = i + 1;
    }
    assert(text@.subrange(0, n as int) =~= text@);
    count
}

/// Calls `humantime::parse_duration` and splits the duration it returns into
/// whole seconds and the nanoseconds of the fraction. The contract states
/// that the result is the named function of the text, and that the nanoseconds
/// are below one second (as `Duration::subsec_nanos` documents).
///
/// `parse_duration` panics when its running total reaches `u64::MAX` whole
/// seconds with one more second of nanoseconds still to carry (its
/// `Duration::new` then overflows). The text is therefore limited to
/// `MAX_DURATION_DIGITS` digits: the numbers in it then sum to less than
/// `10^10`, each counts at most a year (31 557 600 s) per unit, and their
/// fractions add less than one unit each, so the total stays below
/// `2 * 10^10 * 31 557 600` seconds, far under `u64::MAX`.
#[verifier::external_body]
fn parse_human_duration(text: &str) -> (r: Result<(u64, u32), humantime::DurationError>)
    requires
        digit_count(text@) <= MAX_DURATION_DIGITS,
    ensures
        r is Ok <==> human_duration(text@) is Some,
        r matches Ok(v) ==> human_duration(text@) == Some(v) && v.1 < 1_000_000_000,
{
    match humantime::parse_duration(text) {
        Ok(d) => Ok((d.as_secs(), d.subsec_nanos())),
        Err(e) => Err(e),
    }
}

/// The whole milliseconds in `secs` seconds and `nanos` nanoseconds.
pub open spec fn millis_value(secs: u64, nanos: u32) -> int {
    secs * 1000 + nanos / 1_000_000
}

/// The whole milliseconds of a duration, when they fit in a `u64`.
pub fn millis_of(secs: u64, nanos: u32) -> (r: Option<u64>)
    ensures
        match r {
            Some(ms) => ms == millis_value(secs, nanos),
            None => millis_value(secs, nanos) > u64::MAX,
        },
{
    match secs.checked_mul(1000) {
        Some(whole) => whole.checked_add((nanos / 1_000_000) as u64),
        None => None,
    }
}

/// Why a duration option is refused.
#[derive(Clone, Copy, Debug, PartialEq, Eq, Structural)]
pub enum DurationArgError {
    /// The text is not a duration.
    Unreadable,
    /// The duration has more milliseconds than a `u64` holds.
    TooLong,
    /// The text holds more than `MAX_DURATION_DIGITS` digits.
    TooManyDigits,
}

/// The milliseconds of a duration option given as text such as `2s` or
/// `1min 30s`, or why the text is refused. A text with more than
/// `MAX_DURATION_DIGITS` digits is refused unread.
pub open spec fn duration_millis(text: Seq<char>) -> Result<u64, DurationArgError> {
    if digit_count(text) > MAX_DURATION_DIGITS {
        Err(DurationArgError::TooManyDigits)
    } else {
        match human_duration(text) {
        Some((secs, nanos)) => if millis_value(secs, nanos) <= u64::MAX {
            Ok(millis_value(secs, nanos) as u64)
        } else {
            Err(DurationArgError::TooLong)
        },
        None => Err(DurationArgError::Unreadable),
        }
    }
}

/// Reads a duration option given as text such as `2s` or `1min 30s`, in
/// whole milliseconds; a text with more than `MAX_DURATION_DIGITS` digits
/// is refused.
pub fn parse_duration_millis(text: &str) -> (r: Result<u64, DurationArgError>)
    ensures
        r == duration_millis(text@),
{
    if count_digits(text) > MAX_DURATION_DIGITS {
        return Err(DurationArgError::TooManyDigits);
    }
    match parse_human_duration(text) {
        Ok((secs, nanos)) => match millis_of(secs, nanos) {
            Some(ms) => Ok(ms),
            None => Err(DurationArgError::TooLong),
        },
        Err(_) => Err(DurationArgError::Unreadable),
    }
}

} // verus!
