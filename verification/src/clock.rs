//! Clock readings. Their values depend on when they are taken, so nothing is
//! stated of them beyond what each call documents.
use vstd::prelude::*;

use std::time::{Instant, SystemTime};

verus! {

/// Declares `std::time::Instant`, a point on the monotonic clock, as an
/// opaque type.
#[verifier::external_type_specification]
#[verifier::external_body]
pub struct ExInstant(Instant);

/// Declares `std::time::SystemTime`, a reading of the system clock, as an
/// opaque type.
#[verifier::external_type_specification]
#[verifier::external_body]
pub struct ExSystemTime(SystemTime);

/// A UTC calendar time: seconds since the Unix epoch and the nanoseconds
/// past that second.
#[derive(Debug, Clone, Copy, PartialEq, Eq)]
pub struct UtcTimestamp {
    pub secs: i64,
    pub nanos: u32,
}

/// Calls `std::time::Instant::now`; nothing is stated of the reading.
#[verifier::external_body]
pub(crate) fn instant_now() -> Instant {
    Instant::now()
}

/// Calls `Instant::elapsed` and takes whole seconds; nothing is stated of
/// the reading.
#[verifier::external_body]
pub(crate) fn whole_secs_since(t: &Instant) -> u64 {
    t.elapsed().as_secs()
}

/// Calls `Instant::checked_add` with a whole number of seconds: the instant
/// that many seconds after `t`, `None` when it is not representable. The
/// contract claims only that adding zero seconds succeeds (`t` itself is
/// representable); the instant's value is opaque.
#[verifier::external_body]
pub(crate) fn instant_after(t: &Instant, secs: u64) -> (r: Option<Instant>)
    ensures
        secs == 0 ==> r is Some,
{
    t.checked_add(std::time::Duration::from_secs(secs))
}

/// Calls `std::time::SystemTime::now`; nothing is stated of the reading.
#[verifier::external_body]
pub(crate) fn system_now() -> SystemTime {
    SystemTime::now()
}

/// Calls `SystemTime::duration_since(UNIX_EPOCH)` and splits the distance
/// into whole seconds and nanoseconds: `Ok` when `t` is at or after the
/// epoch, `Err` with the distance before it otherwise. The contract claims
/// what `Duration::subsec_nanos` documents: the nanoseconds are below one
/// billion. The distance itself depends on the reading and is not stated.
#[verifier::external_body]
pub(crate) fn since_unix_epoch(t: &SystemTime) -> (r: Result<(u64, u32), (u64, u32)>)
    ensures
        match r {
            Ok((_, n)) => n < 1_000_000_000,
            Err((_, n)) => n < 1_000_000_000,
        },
{
    match t.duration_since(SystemTime::UNIX_EPOCH) {
        Ok(d) => Ok((d.as_secs(), d.subsec_nanos())),
        Err(e) => Err((e.duration().as_secs(), e.duration().subsec_nanos())),
    }
}

/// Nanoseconds since the Unix epoch that a timestamp stands for.
pub open spec fn epoch_nanos(t: UtcTimestamp) -> int {
    t.secs * 1_000_000_000 + t.nanos
}

/// The UTC timestamp of a clock reading given as its distance from the Unix
/// epoch: `Ok((secs, nanos))` at or after the epoch, `Err((secs, nanos))`
/// before it. Seconds beyond the range of `i64` are clamped to it.
pub fn utc_from_epoch_offset(offset: Result<(u64, u32), (u64, u32)>) -> (r: UtcTimestamp)
    requires
        match offset {
            Ok((_, n)) => n < 1_000_000_000,
            Err((_, n)) => n < 1_000_000_000,
        },
    ensures
        r.nanos < 1_000_000_000,
        match offset {
            Ok((s, n)) => if s <= i64::MAX {
                r == UtcTimestamp { secs: s as i64, nanos: n }
            } else {
                r == UtcTimestamp { secs: i64::MAX, nanos: n }
            },
            Err((s, n)) => if s < i64::MAX {
                epoch_nanos(r) == -(s * 1_000_000_000 + n)
            } else {
                r == UtcTimestamp { secs: i64::MIN, nanos: 0 }
            },
        },
{
    match offset {
        Ok((s, n)) => {
            if s <= 0x7FFF_FFFF_FFFF_FFFF {
                UtcTimestamp { secs: s as i64, nanos: n }
            } else {
                UtcTimestamp { secs: i64::MAX, nanos: n }
            }
        },
        Err((s, n)) => {
            if s < 0x7FFF_FFFF_FFFF_FFFF {
                let whole = s as i64;
                if n == 0 {
                    UtcTimestamp { secs: -whole, nanos: 0 }
                } else {
                    UtcTimestamp { secs: -whole - 1, nanos: 1_000_000_000 - n }
                }
            } else {
                UtcTimestamp { secs: i64::MIN, nanos: 0 }
            }
        },
    }
}

/// Reads the system clock as a UTC timestamp. Readings before the Unix
/// epoch give negative seconds; whatever the reading, the nanoseconds are
/// below one billion.
pub(crate) fn utc_now() -> (r: UtcTimestamp)
    ensures
        r.nanos < 1_000_000_000,
{
    let now = system_now();
    utc_from_epoch_offset(since_unix_epoch(&now))
}

} // verus!
