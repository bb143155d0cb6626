//! The signed time that remains before a certificate expires.

use vstd::prelude::*;

verus! {

/// Seconds in one day.
pub const SECS_PER_DAY: i64 = 86400;

/// The offset in seconds described by a time difference given as whole days
/// plus a remainder in seconds.
pub open spec fn diff_secs(days: int, secs: int) -> int {
    days * 86400 + secs
}

/// Whole days in a signed number of seconds, truncating toward zero:
/// `-86399` seconds is `0` days and `-86400` seconds is `-1` day.
pub open spec fn days_of(secs: int) -> int {
    if secs >= 0 {
        secs / 86400
    } else {
        -((-secs) / 86400)
    }
}

/// The whole days of an offset truncate toward zero: they never exceed the
/// offset in magnitude, share its sign, and fall short of it by less than one
/// day.
pub proof fn lemma_days_truncate(secs: int)
    ensures
        secs >= 0 ==> 0 <= days_of(secs) * 86400 <= secs < (days_of(secs) + 1) * 86400,
        secs < 0 ==> (days_of(secs) - 1) * 86400 < secs <= days_of(secs) * 86400 <= 0,
{
    if secs >= 0 {
        assert(0 <= (secs / 86400) * 86400 <= secs < (secs / 86400 + 1) * 86400) by (nonlinear_arith)
            requires secs >= 0;
    } else {
        let n = -secs;
        assert(0 <= (n / 86400) * 86400 <= n < (n / 86400 + 1) * 86400) by (nonlinear_arith)
            requires n > 0;
    }
}

/// A certificate is expired when its offset is below zero.
pub open spec fn expired(offset: int) -> bool {
    offset < 0
}

/// A time difference as the TLS library reports it: the seconds stay within
/// one day, and the days and the seconds never have opposite signs.
pub open spec fn is_time_diff(days: int, secs: int) -> bool {
    &&& -86400 < secs < 86400
    &&& (days >= 0 && secs >= 0) || (days <= 0 && secs <= 0)
}

/// Whether the expiration instant lies after now, by a time difference.
pub open spec fn diff_in_future(days: int, secs: int) -> bool {
    days > 0 || secs > 0
}

/// Whether the expiration instant lies before now, by a time difference.
pub open spec fn diff_in_past(days: int, secs: int) -> bool {
    days < 0 || secs < 0
}

/// A certificate whose expiration instant is still ahead is not expired, and
/// its offset is a positive number of seconds.
pub proof fn lemma_unexpired_positive(days: int, secs: int)
    requires
        is_time_diff(days, secs),
        diff_in_future(days, secs),
    ensures
        !expired(diff_secs(days, secs)),
        diff_secs(days, secs) > 0,
{
}

/// A certificate whose expiration instant has passed is expired, and its
/// offset is a negative number of seconds.
pub proof fn lemma_expired_negative(days: int, secs: int)
    requires
        is_time_diff(days, secs),
        diff_in_past(days, secs),
    ensures
        expired(diff_secs(days, secs)),
        diff_secs(days, secs) < 0,
{
}

/// How far a certificate is from its expiration instant, measured when the
/// value was made: positive while it is still valid, negative once it has
/// expired.
#[derive(Debug, Clone, Copy, PartialEq, Eq)]
pub struct SslExpiration(i64);

impl SslExpiration {
    /// The signed offset in seconds.
    pub closed spec fn view(&self) -> int {
        self.0 as int
    }

    /// Makes the value for a time difference between now and the expiration
    /// instant of `days` whole days plus `secs` seconds.
    pub fn from_time_diff(days: i32, secs: i32) -> (r: SslExpiration)
        ensures
            r@ == diff_secs(days as int, secs as int),
    {
        SslExpiration((days as i64) * SECS_PER_DAY + (secs as i64))
    }

    /// How many seconds until the certificate expires; negative if it has
    /// already expired.
    pub fn secs(&self) -> (r: i64)
        ensures
            r == self@,
    {
        self.0
    }

    /// How many whole days until the certificate expires, the seconds
    /// divided by 86400 and truncated toward zero; negative only once a full
    /// day has passed since it expired.
    pub fn days(&self) -> (r: i64)
        ensures
            r == days_of(self@),
    {
        self.0 / SECS_PER_DAY
    }

    /// Whether the certificate has expired: the offset is below zero. An
    /// offset of exactly zero is not expired.
    pub fn is_expired(&self) -> (r: bool)
        ensures
            r == expired(self@),
    {
        self.0 < 0
    }
}

} // verus!
