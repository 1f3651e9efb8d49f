use vstd::prelude::*;
use std::time::{Duration, Instant, SystemTime};
use crate::errors::ApiError;
use crate::text::{decimal, decimal_string};

verus! {

#[verifier::external_type_specification]
#[verifier::external_body]
pub struct ExSystemTime(SystemTime);

#[verifier::external_type_specification]
#[verifier::external_body]
pub struct ExInstant(Instant);

/// Calls `SystemTime::now`: the wall-clock time, of which nothing can be promised.
#[verifier::external_body]
pub(crate) fn system_now() -> (t: SystemTime) {
    SystemTime::now()
}

/// Calls `SystemTime::duration_since` with the Unix epoch; `None` where the time
/// lies before the epoch (the method's error). The clock decides which, so
/// nothing is stated of it.
#[verifier::external_body]
fn since_epoch(t: &SystemTime) -> (r: Option<Duration>) {
    match t.duration_since(std::time::UNIX_EPOCH) {
        Ok(d) => Some(d),
        Err(_) => None,
    }
}

/// Calls `Duration::as_secs`: the whole seconds of a duration, which comes from the clock.
#[verifier::external_body]
fn whole_secs(d: &Duration) -> (r: u64) {
    d.as_secs()
}

/// Calls `Duration::as_nanos`: the nanoseconds of a duration, which comes from the clock.
#[verifier::external_body]
fn whole_nanos(d: &Duration) -> (r: u128) {
    d.as_nanos()
}

/// Calls `Instant::now`: a reading of the monotonic clock, of which nothing can be promised.
#[verifier::external_body]
fn instant_now() -> (t: Instant) {
    Instant::now()
}

/// Calls `Instant::duration_since`, which the standard library documents to
/// saturate at zero; the clock decides the value, so nothing is stated of it.
#[verifier::external_body]
fn instant_since(later: &Instant, earlier: &Instant) -> (r: Duration) {
    later.duration_since(*earlier)
}

/// The connector's monotonic clock: readings are nanoseconds since the clock
/// was started, so that they are plain numbers that can be stored and compared.
pub struct ConnectorClock {
    origin: Instant,
}

impl ConnectorClock {
    /// Starts the clock now.
    pub fn start() -> (c: ConnectorClock) {
        ConnectorClock { origin: instant_now() }
    }

    /// Nanoseconds since the clock was started; the clock decides the value.
    pub fn now_nanos(&self) -> (r: u128) {
        let d = instant_since(&instant_now(), &self.origin);
        whole_nanos(&d)
    }
}

/// Seconds since the Unix epoch, or 0 where the clock lies before it.
pub fn unix_now_secs() -> (r: u64) {
    match since_epoch(&system_now()) {
        Some(d) => whole_secs(&d),
        None => 0,
    }
}

/// The current Unix time written in decimal, "0" where the clock lies before the epoch.
pub fn chrono_like_timestamp() -> (r: String)
    ensures
        exists|s: nat| r@ == decimal(s),
{
    match since_epoch(&system_now()) {
        Some(d) => decimal_string(whole_secs(&d)),
        None => decimal_string(0),
    }
}

/// How long the drawer must rest between two commands, in nanoseconds.
pub open spec fn rate_window_nanos() -> u128 {
    1_000_000_000
}

/// The time from reading `earlier` to reading `now`, at zero when `now` is not later.
pub open spec fn nanos_after(now: u128, earlier: u128) -> u128 {
    if now >= earlier {
        (now - earlier) as u128
    } else {
        0
    }
}

/// The time since the last accepted command at clock reading `now`, if there was one.
pub open spec fn elapsed_since(now: u128, last: Option<u128>) -> Option<u128> {
    match last {
        Some(p) => Some(nanos_after(now, p)),
        None => None,
    }
}

/// The rate-limit verdict, given the time since the last accepted command
/// (`None` when there was none): refused within one second of it.
pub open spec fn rate_verdict(elapsed_nanos: Option<u128>) -> Result<(), ApiError> {
    match elapsed_nanos {
        Some(e) => if e < rate_window_nanos() {
            Err(ApiError::RateLimited)
        } else {
            Ok(())
        },
        None => Ok(()),
    }
}

/// The rate limit applied at clock reading `now`: refused within one second of
/// the last accepted command, which then stays recorded; accepted otherwise,
/// and `now` becomes the last accepted time.
pub open spec fn rate_limited_at(
    now: u128,
    before: Option<u128>,
    after: Option<u128>,
    r: Result<(), ApiError>,
) -> bool {
    &&& r == rate_verdict(elapsed_since(now, before))
    &&& r is Ok ==> after == Some(now)
    &&& r is Err ==> after == before
}

/// The rate-limit verdict, given the time since the last accepted command.
pub fn rate_limit_verdict(elapsed_nanos: Option<u128>) -> (r: Result<(), ApiError>)
    ensures
        r == rate_verdict(elapsed_nanos),
{
    match elapsed_nanos {
        Some(e) => if e < 1_000_000_000 {
            Err(ApiError::RateLimited)
        } else {
            Ok(())
        },
        None => Ok(()),
    }
}

/// Applies the rate limit at clock reading `now` to the last accepted time.
pub fn rate_limit_at(last: &mut Option<u128>, now: u128) -> (r: Result<(), ApiError>)
    ensures
        rate_limited_at(now, *old(last), *final(last), r),
{
    let elapsed = match *last {
        Some(prev) => Some(if now >= prev { now - prev } else { 0 }),
        None => None,
    };
    let verdict = rate_limit_verdict(elapsed);
    if verdict.is_ok() {
        *last = Some(now);
    }
    verdict
}

/// Reads the clock and applies the rate limit at that reading.
pub fn check_rate_limit(last: &mut Option<u128>, clock: &ConnectorClock) -> (r: Result<(), ApiError>)
    ensures
        exists|now: u128| rate_limited_at(now, *old(last), *final(last), r),
{
    let now = clock.now_nanos();
    rate_limit_at(last, now)
}

} // verus!
