//! Reading the wall clock.

use std::time::{Duration, SystemTime, UNIX_EPOCH};
use vstd::prelude::*;

verus! {

#[verifier::external_type_specification]
#[verifier::external_body]
pub struct ExSystemTime(std::time::SystemTime);

/// `SystemTime::now`: the wall clock's reading. Nothing is claimed of it.
#[verifier::external_body]
fn wall_clock() -> (t: SystemTime) {
    SystemTime::now()
}

/// `SystemTime::duration_since`, measured from `UNIX_EPOCH`: the time that
/// has passed since the epoch, or `None` where `t` lies before it. Nothing is
/// claimed of which.
#[verifier::external_body]
fn since_epoch(t: &SystemTime) -> (d: Option<Duration>) {
    match t.duration_since(UNIX_EPOCH) {
        Ok(d) => Some(d),
        Err(_) => None,
    }
}

/// `Duration::as_secs`: the whole seconds in `d`. Nothing is claimed of their
/// number.
#[verifier::external_body]
fn whole_seconds(d: &Duration) -> (secs: u64) {
    d.as_secs()
}

/// The whole seconds that have passed since the epoch, or `None` where the
/// clock reads a time before it.
pub fn unix_seconds() -> (now: Option<u64>) {
    let t = wall_clock();
    match since_epoch(&t) {
        Some(d) => Some(whole_seconds(&d)),
        None => None,
    }
}

} // verus!
