//! Time budgeting. All instants are nanoseconds on one monotonic clock, and
//! all durations are nanoseconds; `None` stands for "no bound".
use vstd::prelude::*;

use crate::error::{Error, IoErrorKind};

verus! {

pub const NANOS_PER_SEC: u128 = 1_000_000_000;

/// The time budget, in nanoseconds, of a timeout given in whole seconds.
pub open spec fn budget_of(timeout: Option<u64>) -> Option<u128> {
    match timeout {
        Some(secs) => Some((secs as u128 * NANOS_PER_SEC) as u128),
        None => None,
    }
}

/// Whether the deadline of a send started at `now` can be represented.
pub open spec fn deadline_fits(timeout: Option<u64>, now: u128) -> bool {
    match timeout {
        Some(secs) => now as int + secs as int * NANOS_PER_SEC as int <= u128::MAX as int,
        None => true,
    }
}

/// The absolute deadline of a send started at `now`.
pub open spec fn deadline_of(timeout: Option<u64>, now: u128) -> Option<u128> {
    match timeout {
        Some(secs) => Some((now + secs as int * NANOS_PER_SEC) as u128),
        None => None,
    }
}

/// What is left of the budget at `now`: `None` when there is no deadline,
/// an error once the deadline has been reached.
pub open spec fn remaining_at(timeout_at: Option<u128>, now: u128, late: Error) -> Result<
    Option<u128>,
    Error,
> {
    match timeout_at {
        Some(at) => if at <= now {
            Err(late)
        } else {
            Ok(Some((at - now) as u128))
        },
        None => Ok(None),
    }
}

/// Converts a timeout in whole seconds into a budget in nanoseconds.
pub fn timeout_duration(timeout: Option<u64>) -> (r: Option<u128>)
    ensures
        r == budget_of(timeout),
{
    match timeout {
        Some(secs) => Some(secs as u128 * NANOS_PER_SEC),
        None => None,
    }
}

/// The absolute deadline of a send that starts at `now`.
pub fn deadline_at(timeout: Option<u64>, now: u128) -> (r: Option<u128>)
    requires
        deadline_fits(timeout, now),
    ensures
        r == deadline_of(timeout, now),
{
    match timeout {
        Some(secs) => Some(now + secs as u128 * NANOS_PER_SEC),
        None => None,
    }
}

/// Recomputes the remaining budget as `timeout_at - now` before the next
/// blocking phase. Without a budget or a deadline nothing changes. Once the
/// deadline has been reached the budget is left alone and the phase fails.
pub fn calibrate_timeout(timeout: &mut Option<u128>, timeout_at: Option<u128>, now: u128) -> (r:
    Result<(), Error>)
    ensures
        old(timeout).is_none() || timeout_at.is_none() ==> r is Ok && *final(timeout) == *old(
            timeout,
        ),
        old(timeout).is_some() ==> match remaining_at(timeout_at, now, Error::DeadlineExceeded) {
            Ok(d) => r is Ok && (timeout_at.is_some() ==> *final(timeout) == d),
            Err(e) => r == Err::<(), Error>(e) && *final(timeout) == *old(timeout),
        },
{
    if let (Some(_), Some(at)) = (*timeout, timeout_at) {
        if now < at {
            *timeout = Some(at - now);
        } else {
            return Err(Error::DeadlineExceeded);
        }
    }
    Ok(())
}

/// The read timeout to set on the socket before a read: `Ok(None)` leaves
/// the read unbounded, and a deadline already reached fails the read before
/// any blocking call is made.
pub fn read_timeout(timeout_at: Option<u128>, now: u128) -> (r: Result<Option<u128>, Error>)
    ensures
        r == remaining_at(timeout_at, now, Error::IoError(IoErrorKind::TimedOut)),
{
    match timeout_at {
        Some(at) => if at <= now {
            Err(Error::IoError(IoErrorKind::TimedOut))
        } else {
            Ok(Some(at - now))
        },
        None => Ok(None),
    }
}

/// A timeout of zero seconds has expired by the time any phase after the
/// start of the send begins: the phase fails with the deadline error.
pub proof fn law_zero_timeout_expires(start: u128, now: u128)
    requires
        start <= now,
    ensures
        deadline_fits(Some(0u64), start),
        budget_of(Some(0u64)) == Some(0u128),
        remaining_at(deadline_of(Some(0u64), start), now, Error::DeadlineExceeded) == Err::<
            Option<u128>,
            Error,
        >(Error::DeadlineExceeded),
{
}

/// A deadline that has been reached fails every later read before it
/// starts, and a deadline still ahead bounds the read by what is left.
pub proof fn law_read_after_deadline_fails(at: u128, now: u128)
    ensures
        at <= now ==> remaining_at(Some(at), now, Error::IoError(IoErrorKind::TimedOut)) == Err::<Option<u128>, Error>(
            Error::IoError(IoErrorKind::TimedOut),
        ),
        now < at ==> remaining_at(Some(at), now, Error::IoError(IoErrorKind::TimedOut)) == Ok::<Option<u128>, Error>(
            Some((at - now) as u128),
        ),
{
}

/// The value of a run of decimal digits.
pub open spec fn digits_value(s: Seq<char>) -> int
    decreases s.len(),
{
    if s.len() == 0 {
        0
    } else {
        digits_value(s.drop_last()) * 10 + (s.last() as int - '0' as int)
    }
}

pub open spec fn is_digit(c: char) -> bool {
    '0' <= c <= '9'
}

pub open spec fn all_digits(s: Seq<char>) -> bool {
    forall|i: int| 0 <= i < s.len() ==> is_digit(#[trigger] s[i])
}

/// An unsigned decimal number as Rust's integer parsing reads it: an
/// optional `+`, then one or more digits, within the range of `u64`.
pub open spec fn parse_u64(s: Seq<char>) -> Option<u64> {
    let d = if s.len() > 0 && s[0] == '+' {
        s.drop_first()
    } else {
        s
    };
    if d.len() > 0 && all_digits(d) && digits_value(d) <= u64::MAX {
        Some(digits_value(d) as u64)
    } else {
        None
    }
}

proof fn lemma_digits_value_grows(s: Seq<char>, i: int)
    requires
        all_digits(s),
        0 <= i <= s.len(),
    ensures
        0 <= digits_value(s.take(i)) <= digits_value(s),
    decreases s.len(),
{
    if s.len() > 0 {
        if i == s.len() {
            assert(s.take(i) =~= s);
            lemma_digits_value_grows(s.drop_last(), i - 1);
        } else {
            assert(s.take(i) =~= s.drop_last().take(i));
            lemma_digits_value_grows(s.drop_last(), i);
            lemma_digits_value_grows(s.drop_last(), s.len() - 1);
            assert(s.drop_last().take(s.len() - 1) =~= s.drop_last());
        }
    } else {
        assert(s.take(i) =~= s);
    }
}

/// Reads a timeout in seconds from text, as an environment setting holds it.
pub fn parse_timeout_secs(s: &str) -> (r: Option<u64>)
    ensures
        r == parse_u64(s@),
{
    let n = s.unicode_len();
    let start: usize = if n > 0 && s.get_char(0) == '+' {
        1
    } else {
        0
    };
    let ghost d = if s@.len() > 0 && s@[0] == '+' {
        s@.drop_first()
    } else {
        s@
    };
    assert(d =~= s@.subrange(start as int, n as int));
    if start == n {
        return None;
    }
    let mut value: u64 = 0;
    let mut i: usize = start;
    while i < n
        invariant
            start <= i <= n,
            n == s@.len(),
            d =~= s@.subrange(start as int, n as int),
            d == (if s@.len() > 0 && s@[0] == '+' {
                s@.drop_first()
            } else {
                s@
            }),
            all_digits(d.take(i - start)),
            value as int == digits_value(d.take(i - start)),
        decreases n - i,
    {
        let c = s.get_char(i);
        assert(d[i - start] == c);
        if !('0' <= c && c <= '9') {
            assert(!is_digit(d[i - start]));
            assert(!all_digits(d));
            return None;
        }
        let digit = (c as u32 - '0' as u32) as u64;
        assert(d.take(i - start + 1).drop_last() =~= d.take(i - start));
        assert(digits_value(d.take(i - start + 1)) == value * 10 + digit);
        match value.checked_mul(10) {
            Some(v) => match v.checked_add(digit) {
                Some(w) => {
                    value = w;
                },
                None => {
                    proof {
                        if all_digits(d) {
                            lemma_digits_value_grows(d, i - start + 1);
                        }
                    }
                    return None;
                },
            },
            None => {
                proof {
                    if all_digits(d) {
                        lemma_digits_value_grows(d, i - start + 1);
                    }
                }
                return None;
            },
        }
        i = i + 1;
    }
    assert(d.take(i - start) =~= d);
    Some(value)
}

} // verus!
