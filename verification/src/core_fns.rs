//! The daemon's half of `eio:core`: a live clock and the operating system's entropy.
//!
//! Everything else of `eio:core` belongs to the host core, which mentions no platform. What is
//! left is what a crate with no platform beneath it cannot answer: [`SystemClock`] reads the
//! wall clock and a monotonic origin fresh on every call, and [`OsEntropy`] is `getrandom`.
//! What the clock reads is the machine's; what the daemon makes of a reading is here.
use vstd::prelude::*;
use std::time::{Instant, SystemTime, UNIX_EPOCH};
use crate::node::{fill_random, EntropyError};

verus! {

/// `std::time::Instant`, carried opaque.
#[verifier::external_type_specification]
#[verifier::external_body]
pub struct ExInstant(Instant);

/// `std::time::SystemTime`, carried opaque.
#[verifier::external_type_specification]
#[verifier::external_body]
pub struct ExSystemTime(SystemTime);

/// `Instant::now`: the monotonic clock's reading. Nothing is stated of it — it is the time.
#[verifier::external_body]
fn monotonic_now() -> (now: Instant) {
    Instant::now()
}

/// `Instant::elapsed`, in whole milliseconds: how long ago `origin` was. The machine's to say.
#[verifier::external_body]
fn elapsed_ms(origin: &Instant) -> (ms: u128) {
    origin.elapsed().as_millis()
}

/// `SystemTime::now`: the wall clock's reading. Nothing is stated of it — it is the time.
#[verifier::external_body]
fn wall_now() -> (now: SystemTime) {
    SystemTime::now()
}

/// `SystemTime::duration_since(UNIX_EPOCH)`, in whole milliseconds; `None` for a reading
/// before the epoch. The machine's to say.
#[verifier::external_body]
fn ms_since_epoch(time: &SystemTime) -> (ms: Option<u128>) {
    match time.duration_since(UNIX_EPOCH) {
        Ok(since) => Some(since.as_millis()),
        Err(_) => None,
    }
}

/// A count of milliseconds as `i64`, saturating at `i64::MAX` rather than wrapping.
pub open spec fn clamp_spec(ms: u128) -> i64 {
    if ms <= i64::MAX as u128 {
        ms as i64
    } else {
        i64::MAX
    }
}

/// A count of milliseconds as `i64`, saturating. A process would have to run for 292 million
/// years to reach it.
pub fn clamp_ms(ms: u128) -> (clamped: i64)
    ensures
        clamped == clamp_spec(ms),
{
    if ms <= i64::MAX as u128 {
        ms as i64
    } else {
        i64::MAX
    }
}

/// What `time_unix_ms` reports for a wall-clock reading `since` milliseconds past the epoch:
/// the count, saturating — and the epoch itself for a clock set before 1970, rather than a
/// negative count no block would read as "the clock is wrong".
pub fn unix_ms_of(since: Option<u128>) -> (ms: i64)
    ensures
        ms == match since {
            Some(since) => clamp_spec(since),
            None => 0,
        },
{
    match since {
        Some(since) => clamp_ms(since),
        None => 0,
    }
}

/// `time_unix_ms`/`time_mono_ms`, read from the machine on every call.
#[derive(Debug)]
pub struct SystemClock {
    /// The origin `time_mono_ms` counts from: this clock's construction, not the process's,
    /// so two instances loaded minutes apart do not disagree about "zero".
    origin: Instant,
}

impl SystemClock {
    /// A clock whose monotonic origin is now.
    pub fn new() -> (clock: SystemClock) {
        SystemClock { origin: monotonic_now() }
    }

    /// Milliseconds since the Unix epoch: never negative.
    pub fn unix_ms(&self) -> (ms: i64)
        ensures
            ms >= 0,
    {
        let now = wall_now();
        unix_ms_of(ms_since_epoch(&now))
    }

    /// Milliseconds since this clock's origin: never negative.
    pub fn mono_ms(&self) -> (ms: i64)
        ensures
            ms >= 0,
    {
        clamp_ms(elapsed_ms(&self.origin))
    }
}

impl Default for SystemClock {
    fn default() -> (clock: SystemClock) {
        SystemClock::new()
    }
}

/// `rand`'s entropy source: the operating system's, through `getrandom`.
#[derive(Debug, Default, Clone, Copy)]
pub struct OsEntropy;

impl OsEntropy {
    /// Fills `buf` with the operating system's randomness, or says it could not. What the
    /// bytes are is chance; that there are as many as there were is all there is to state.
    pub fn fill(&mut self, buf: &mut Vec<u8>) -> (filled: Result<(), EntropyError>)
        ensures
            final(buf)@.len() == old(buf)@.len(),
    {
        fill_random(buf)
    }
}

} // verus!
