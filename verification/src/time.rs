use std::time::{Duration, SystemTime, SystemTimeError, UNIX_EPOCH};
use vstd::prelude::*;

verus! {

/// A reading of the system clock, carried through unchanged.
#[verifier::external_type_specification]
#[verifier::external_body]
pub struct ExSystemTime(SystemTime);

/// The error of a clock reading that lies before the epoch, carried through
/// unchanged.
#[verifier::external_type_specification]
#[verifier::external_body]
pub struct ExSystemTimeError(SystemTimeError);

/// The number of whole milliseconds in a duration, as `Duration::as_millis`
/// gives it.
pub uninterp spec fn duration_as_millis(d: Duration) -> u128;

/// `SystemTime::now`: the current time of the system clock. Nothing is
/// claimed of it.
#[verifier::external_body]
fn system_time_now() -> SystemTime {
    SystemTime::now()
}

/// `SystemTime::duration_since` with `UNIX_EPOCH`: the time elapsed since the
/// epoch, or an error for a clock set before it. Nothing is claimed of the
/// outcome, which rests on the clock.
#[verifier::external_body]
fn elapsed_since_epoch(t: &SystemTime) -> Result<Duration, SystemTimeError> {
    t.duration_since(UNIX_EPOCH)
}

/// `Duration::as_millis`: claims only that the result is the named whole
/// number of milliseconds of its argument.
#[verifier::external_body]
fn whole_millis(d: &Duration) -> (ms: u128)
    ensures
        ms == duration_as_millis(*d),
{
    d.as_millis()
}

/// A millisecond count cut down to `u64`: counts beyond its range become
/// `u64::MAX`.
pub open spec fn saturate_millis(ms: u128) -> u64 {
    if ms <= u64::MAX as u128 {
        ms as u64
    } else {
        u64::MAX
    }
}

/// The milliseconds of a duration as `u64`, `u64::MAX` where they do not fit.
pub open spec fn spec_duration_millis(d: Duration) -> u64 {
    saturate_millis(duration_as_millis(d))
}

/// The expiry time for a time-to-live of `ttl_millis` started at `now`,
/// `u64::MAX` where the sum overflows.
pub open spec fn expiry_after(now: u64, ttl_millis: u64) -> u64 {
    if now + ttl_millis > u64::MAX {
        u64::MAX
    } else {
        (now + ttl_millis) as u64
    }
}

fn saturating_millis(ms: u128) -> (r: u64)
    ensures
        r == saturate_millis(ms),
{
    if ms <= u64::MAX as u128 {
        ms as u64
    } else {
        u64::MAX
    }
}

/// The whole milliseconds of `duration`, saturated at `u64::MAX`.
pub fn duration_millis(duration: Duration) -> (ms: u64)
    ensures
        ms == spec_duration_millis(duration),
{
    saturating_millis(whole_millis(&duration))
}

/// Milliseconds since the Unix epoch for a reading of the time elapsed since
/// it: 0 for a clock set before the epoch, `u64::MAX` past the range of `u64`.
pub open spec fn epoch_millis(elapsed: Result<Duration, SystemTimeError>) -> u64 {
    match elapsed {
        Ok(d) => spec_duration_millis(d),
        Err(_) => 0,
    }
}

/// Milliseconds since the Unix epoch for the time elapsed since it, as
/// `SystemTime::duration_since` reports it.
pub fn millis_since_epoch(elapsed: Result<Duration, SystemTimeError>) -> (ms: u64)
    ensures
        ms == epoch_millis(elapsed),
{
    let whole: u128 = match elapsed {
        Ok(duration) => whole_millis(&duration),
        Err(_) => 0,
    };
    saturating_millis(whole)
}

/// Milliseconds since the Unix epoch by the system clock: the milliseconds of
/// the time the clock reports as elapsed since the epoch. Which reading the
/// clock gives is not claimed.
pub fn now_millis() -> (ms: u64)
    ensures
        exists|elapsed: Result<Duration, SystemTimeError>| ms == #[trigger] epoch_millis(elapsed),
{
    let now = system_time_now();
    let elapsed = elapsed_since_epoch(&now);
    let ghost reading = elapsed;
    let ms = millis_since_epoch(elapsed);
    assert(ms == epoch_millis(reading));
    ms
}

/// The expiry time, in Unix milliseconds, of a time-to-live `ttl` that starts
/// at `now`.
pub fn expiry_from(now: u64, ttl: Duration) -> (t: u64)
    ensures
        t == expiry_after(now, spec_duration_millis(ttl)),
{
    now.saturating_add(duration_millis(ttl))
}

/// The expiry time, in Unix milliseconds, of a time-to-live `ttl` that starts
/// now: the clock's reading in Unix milliseconds plus the milliseconds of
/// `ttl`, saturated at `u64::MAX`. Which reading the clock gives is not
/// claimed; whatever it is, the expiry lies no earlier than the length of
/// `ttl` after the epoch.
pub fn expires_at_millis(ttl: Duration) -> (t: u64)
    ensures
        exists|elapsed: Result<Duration, SystemTimeError>|
            t == expiry_after(#[trigger] epoch_millis(elapsed), spec_duration_millis(ttl)),
        t >= spec_duration_millis(ttl),
{
    let now = now_millis();
    let t = expiry_from(now, ttl);
    proof {
        let elapsed = choose|elapsed: Result<Duration, SystemTimeError>| now == #[trigger] epoch_millis(elapsed);
        assert(t == expiry_after(epoch_millis(elapsed), spec_duration_millis(ttl)));
    }
    t
}

/// An expiry taken from a clock reading is the reading's Unix milliseconds
/// plus the time-to-live: where nothing saturates, the whole milliseconds
/// elapsed from the epoch to the reading plus those of the time-to-live, and
/// so no less than either.
pub proof fn law_expiry_from_clock_reading(elapsed: Result<Duration, SystemTimeError>, ttl: Duration)
    ensures
        expiry_after(epoch_millis(elapsed), spec_duration_millis(ttl)) >= epoch_millis(elapsed),
        expiry_after(epoch_millis(elapsed), spec_duration_millis(ttl)) >= spec_duration_millis(ttl),
        elapsed matches Ok(d) ==> (duration_as_millis(d) + duration_as_millis(ttl) <= u64::MAX ==>
            expiry_after(epoch_millis(elapsed), spec_duration_millis(ttl)) == duration_as_millis(d)
                + duration_as_millis(ttl)),
        elapsed is Err ==> expiry_after(epoch_millis(elapsed), spec_duration_millis(ttl))
            == spec_duration_millis(ttl),
{
}

} // verus!
