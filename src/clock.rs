//! A timestamp generator over the standard library's system clock.
use vstd::prelude::*;

use std::time::{Duration, SystemTime};

use crate::types::NtpTimestampGenerator;

verus! {

#[verifier::external_type_specification]
#[verifier::external_body]
pub struct ExSystemTime(std::time::SystemTime);

/// Relies on `SystemTime::now`: a reading of the system clock, of which
/// nothing is known in advance.
pub assume_specification[ std::time::SystemTime::now ]() -> std::time::SystemTime;

/// Relies on `Duration::as_secs`: the whole seconds of a duration.
pub assume_specification[ std::time::Duration::as_secs ](d: &std::time::Duration) -> u64;

/// Relies on `Duration::subsec_micros`: the fractional part of a duration in
/// whole microseconds, which the documentation bounds below one million.
pub assume_specification[ std::time::Duration::subsec_micros ](d: &std::time::Duration) -> (r: u32)
    ensures
        r < 1_000_000,
;

/// Relies on `SystemTime::duration_since(UNIX_EPOCH)`: the time elapsed since
/// the UNIX epoch, or `None` where the clock reads earlier than the epoch.
#[verifier::external_body]
fn since_unix_epoch(t: &SystemTime) -> Option<Duration> {
    t.duration_since(std::time::UNIX_EPOCH).ok()
}

/// Standard library timestamp generator wrapper type
/// that relies on `std::time` to provide timestamps during SNTP client operations
#[derive(Copy, Clone)]
pub struct StdTimestampGen {
    /// Whole seconds since the UNIX epoch at the last `init`.
    secs: u64,
    /// Microseconds past `secs` at the last `init`.
    subsec_micros: u32,
}

impl StdTimestampGen {
    /// Whole seconds since the UNIX epoch at the last sample.
    pub closed spec fn spec_secs(self) -> u64 {
        self.secs
    }

    /// Microseconds past the whole second at the last sample.
    pub closed spec fn spec_subsec_micros(self) -> u32 {
        self.subsec_micros
    }

    #[verifier::type_invariant]
    spec fn inv(self) -> bool {
        self.subsec_micros < 1_000_000
    }
}

impl Default for StdTimestampGen {
    /// A generator that reads the UNIX epoch until its first `init`.
    fn default() -> (r: Self)
        ensures
            r.spec_secs() == 0,
            r.spec_subsec_micros() == 0,
    {
        StdTimestampGen { secs: 0, subsec_micros: 0 }
    }
}

impl NtpTimestampGenerator for StdTimestampGen {
    /// Sample the system clock; a clock that reads earlier than the UNIX
    /// epoch is taken as the epoch itself.
    fn init(&mut self) {
        let now = SystemTime::now();
        *self = match since_unix_epoch(&now) {
            Some(d) => StdTimestampGen { secs: d.as_secs(), subsec_micros: d.subsec_micros() },
            None => StdTimestampGen { secs: 0, subsec_micros: 0 },
        };
    }

    fn timestamp_sec(&self) -> (r: u64)
        ensures
            r == self.spec_secs(),
    {
        self.secs
    }

    fn timestamp_subsec_micros(&self) -> (r: u32)
        ensures
            r == self.spec_subsec_micros(),
    {
        proof {
            use_type_invariant(self);
        }
        self.subsec_micros
    }
}

} // verus!
