//! Points in time and the time to live of a record.

use vstd::prelude::*;

verus! {

/// Nanoseconds in one second.
pub const NANOS_PER_SECOND: i128 = 1_000_000_000;

/// The earliest instant that can be held: midnight at the start of the year
/// -9999, in nanoseconds since the Unix epoch.
pub const MIN_UNIX_NANOS: i128 = -377_705_116_800_000_000_000;

/// The latest instant that can be held: the last nanosecond of the year 9999,
/// in nanoseconds since the Unix epoch.
pub const MAX_UNIX_NANOS: i128 = 253_402_300_799_999_999_999;

/// Whether `unix_nanos` lies in the range of instants that can be held.
pub open spec fn is_valid_unix_nanos(unix_nanos: int) -> bool {
    MIN_UNIX_NANOS <= unix_nanos <= MAX_UNIX_NANOS
}

/// An absolute point in time in UTC, with nanosecond precision.
///
/// Its view is the number of nanoseconds since the Unix epoch, negative for
/// instants before it.
#[derive(Clone, Copy, Debug, PartialEq, Eq)]
pub struct UtcInstant {
    unix_nanos: i128,
}

impl View for UtcInstant {
    type V = int;

    closed spec fn view(&self) -> int {
        self.unix_nanos as int
    }
}

impl UtcInstant {
    #[verifier::type_invariant]
    spec fn in_range(self) -> bool {
        is_valid_unix_nanos(self.unix_nanos as int)
    }

    /// The instant `unix_nanos` nanoseconds after the Unix epoch, or `None`
    /// when that lies outside the years -9999 to 9999.
    pub fn from_unix_nanos(unix_nanos: i128) -> (instant: Option<UtcInstant>)
        ensures
            instant is Some <==> is_valid_unix_nanos(unix_nanos as int),
            instant matches Some(t) ==> t@ == unix_nanos,
    {
        if MIN_UNIX_NANOS <= unix_nanos && unix_nanos <= MAX_UNIX_NANOS {
            Some(UtcInstant { unix_nanos })
        } else {
            None
        }
    }

    /// The present instant, as the system clock gives it.
    pub fn now() -> (instant: UtcInstant)
        ensures
            is_valid_unix_nanos(instant@),
    {
        let unix_nanos: i128 = clock_unix_nanos();
        UtcInstant { unix_nanos }
    }

    /// Nanoseconds since the Unix epoch.
    pub fn unix_nanos(&self) -> (unix_nanos: i128)
        ensures
            unix_nanos == self@,
            is_valid_unix_nanos(self@),
    {
        proof {
            use_type_invariant(self);
        }
        self.unix_nanos
    }
}

/// Reads the system clock with `time::OffsetDateTime::now_utc` and gives the
/// instant as `unix_timestamp_nanos` counts it.
///
/// Trusted: the call returns, and its reading is a date and time in UTC
/// between the years -9999 and 9999, which is all that a value of that type
/// can hold; a system clock set beyond those years is left out of account.
/// Nothing is claimed of which instant it is, nor that two readings agree.
#[verifier::external_body]
fn clock_unix_nanos() -> (unix_nanos: i128)
    ensures
        is_valid_unix_nanos(unix_nanos as int),
{
    time::OffsetDateTime::now_utc().unix_timestamp_nanos()
}

/// The whole seconds that lie between `now` and `expiry_date`, both in
/// nanoseconds since the Unix epoch: the difference rounded down, and 0 where
/// the expiry date is not in the future.
pub open spec fn remaining_seconds(expiry_date: int, now: int) -> int {
    let whole = (expiry_date - now) / (NANOS_PER_SECOND as int);
    if whole < 0 {
        0
    } else {
        whole
    }
}

/// The time to live, in whole seconds, of a record that expires at
/// `expiry_date` and is written at `now`.
pub fn ttl_seconds(expiry_date: UtcInstant, now: UtcInstant) -> (ttl: u64)
    ensures
        ttl == remaining_seconds(expiry_date@, now@),
{
    proof {
        use_type_invariant(expiry_date);
        use_type_invariant(now);
    }
    if expiry_date.unix_nanos <= now.unix_nanos {
        0
    } else {
        let left: i128 = expiry_date.unix_nanos - now.unix_nanos;
        let whole: i128 = left / NANOS_PER_SECOND;
        whole as u64
    }
}

/// A time to live is never negative, whatever the two instants are.
pub proof fn ttl_is_never_negative(expiry_date: int, now: int)
    ensures
        remaining_seconds(expiry_date, now) >= 0,
{
}

/// A record whose expiry date is not in the future has a time to live of 0.
pub proof fn ttl_of_expired_record_is_zero(expiry_date: int, now: int)
    requires
        expiry_date <= now,
    ensures
        remaining_seconds(expiry_date, now) == 0,
{
}

/// A record whose expiry date is in the future has as its time to live the
/// time that is left, rounded down to whole seconds: the time to live fits
/// into what is left, and one second more does not.
pub proof fn ttl_of_live_record_is_time_left_rounded_down(expiry_date: int, now: int)
    requires
        expiry_date > now,
    ensures
        remaining_seconds(expiry_date, now) == (expiry_date - now) / (NANOS_PER_SECOND as int),
        remaining_seconds(expiry_date, now) * NANOS_PER_SECOND <= expiry_date - now,
        expiry_date - now < (remaining_seconds(expiry_date, now) + 1) * NANOS_PER_SECOND,
{
}

/// As time passes the time to live of a record never grows.
pub proof fn ttl_never_grows_with_time(expiry_date: int, earlier: int, later: int)
    requires
        earlier <= later,
    ensures
        remaining_seconds(expiry_date, later) <= remaining_seconds(expiry_date, earlier),
{
}

/// Once a whole second has passed, a time to live that was not yet 0 has
/// become smaller.
pub proof fn ttl_shrinks_with_every_second(expiry_date: int, earlier: int, later: int)
    requires
        earlier + NANOS_PER_SECOND <= later,
        remaining_seconds(expiry_date, earlier) > 0,
    ensures
        remaining_seconds(expiry_date, later) < remaining_seconds(expiry_date, earlier),
{
}

} // verus!
