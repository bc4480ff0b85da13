//! Clock reading and decimal rendering of integers.

use std::time::{Duration, SystemTime, SystemTimeError, UNIX_EPOCH};
use vstd::prelude::*;

verus! {

#[verifier::external_type_specification]
#[verifier::external_body]
pub struct ExSystemTime(SystemTime);

#[verifier::external_type_specification]
#[verifier::external_body]
pub struct ExSystemTimeError(SystemTimeError);

/// The character of a decimal digit `d < 10`.
pub open spec fn digit_char(d: nat) -> char {
    if d == 0 {
        '0'
    } else if d == 1 {
        '1'
    } else if d == 2 {
        '2'
    } else if d == 3 {
        '3'
    } else if d == 4 {
        '4'
    } else if d == 5 {
        '5'
    } else if d == 6 {
        '6'
    } else if d == 7 {
        '7'
    } else if d == 8 {
        '8'
    } else {
        '9'
    }
}

/// The decimal digits of `n`, most significant first, without leading zeros.
pub open spec fn nat_decimal(n: nat) -> Seq<char>
    decreases n,
{
    if n < 10 {
        seq![digit_char(n)]
    } else {
        nat_decimal(n / 10).push(digit_char(n % 10))
    }
}

/// The decimal rendering of `n`, with a leading `-` when negative.
pub open spec fn int_decimal(n: int) -> Seq<char> {
    if n < 0 {
        seq!['-'] + nat_decimal((-n) as nat)
    } else {
        nat_decimal(n as nat)
    }
}

/// `SystemTime::now`: the current reading of the system clock. Nothing is
/// claimed of the reading.
#[verifier::external_body]
fn system_time_now() -> SystemTime {
    SystemTime::now()
}

/// `SystemTime::duration_since` with `UNIX_EPOCH`: the time elapsed since the
/// Unix epoch, or an error when the reading lies before the epoch. Nothing is
/// claimed of the outcome, which depends on the clock.
#[verifier::external_body]
fn since_unix_epoch(t: &SystemTime) -> Result<Duration, SystemTimeError> {
    t.duration_since(UNIX_EPOCH)
}

/// `Duration::as_millis`: the whole milliseconds of a duration. `Duration` is
/// opaque here, so nothing is claimed of the number.
#[verifier::external_body]
fn duration_as_millis(d: &Duration) -> u128 {
    d.as_millis()
}

/// The text of one decimal digit.
fn digit_str(d: u64) -> (r: &'static str)
    requires
        d < 10,
    ensures
        r@ == seq![digit_char(d as nat)],
{
    proof {
        reveal_strlit("0");
        reveal_strlit("1");
        reveal_strlit("2");
        reveal_strlit("3");
        reveal_strlit("4");
        reveal_strlit("5");
        reveal_strlit("6");
        reveal_strlit("7");
        reveal_strlit("8");
        reveal_strlit("9");
    }
    if d == 0 {
        "0"
    } else if d == 1 {
        "1"
    } else if d == 2 {
        "2"
    } else if d == 3 {
        "3"
    } else if d == 4 {
        "4"
    } else if d == 5 {
        "5"
    } else if d == 6 {
        "6"
    } else if d == 7 {
        "7"
    } else if d == 8 {
        "8"
    } else {
        "9"
    }
}

/// The decimal digits of `n`, most significant first, without leading zeros.
pub fn u64_to_decimal(n: u64) -> (s: String)
    ensures
        s@ == nat_decimal(n as nat),
    decreases n,
{
    if n < 10 {
        String::from_str(digit_str(n))
    } else {
        let mut s = u64_to_decimal(n / 10);
        s.append(digit_str(n % 10));
        s
    }
}

/// The decimal rendering of a `u16`.
pub fn u16_to_decimal(n: u16) -> (s: String)
    ensures
        s@ == int_decimal(n as int),
{
    u64_to_decimal(n as u64)
}

/// The decimal rendering of an `i64`, with a leading `-` when negative.
pub fn i64_to_decimal(n: i64) -> (s: String)
    ensures
        s@ == int_decimal(n as int),
{
    if n < 0 {
        let magnitude: u64 = (-(n as i128)) as u64;
        let mut s = String::from_str("-");
        proof {
            reveal_strlit("-");
        }
        s.append(u64_to_decimal(magnitude).as_str());
        s
    } else {
        u64_to_decimal(n as u64)
    }
}

/// The whole milliseconds of a clock reading, truncated to `i64`; `None` for
/// a reading before the Unix epoch.
pub fn millis_since_epoch(reading: Option<u128>) -> (r: Option<i64>)
    ensures
        r == (match reading {
            Some(m) => Some(m as i64),
            None => None::<i64>,
        }),
{
    match reading {
        Some(m) => Some(m as i64),
        None => None,
    }
}

/// Two readings in order whose milliseconds fit in `i64` give results in the
/// same order, as far apart as the readings, and never negative.
pub proof fn lemma_millis_since_epoch_monotone(m1: u128, m2: u128)
    requires
        m1 <= m2 <= i64::MAX,
    ensures
        0 <= (m1 as i64) <= (m2 as i64),
        (m2 as i64) - (m1 as i64) == m2 - m1,
{
}

/// Milliseconds since the Unix epoch, truncated to `i64`; `None` when the
/// system clock reads a time before the epoch.
pub fn current_time_millis() -> Option<i64> {
    let now = system_time_now();
    let reading = match since_unix_epoch(&now) {
        Ok(d) => Some(duration_as_millis(&d)),
        Err(_) => None,
    };
    millis_since_epoch(reading)
}

} // verus!
