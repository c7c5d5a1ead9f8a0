use vstd::prelude::*;

verus! {

/// A point in time: whole seconds since the Unix epoch and the nanoseconds within
/// that second.
#[derive(Debug, Clone, Copy, PartialEq, Eq, Structural)]
pub struct Timestamp {
    pub secs: i64,
    pub nanos: u32,
}

impl Timestamp {
    /// Nanoseconds since the Unix epoch.
    pub open spec fn spec_unix_nanos(self) -> int {
        self.secs * 1_000_000_000 + self.nanos
    }

    /// Whole seconds from `earlier` to `self`, rounded toward zero (what
    /// `chrono::TimeDelta::num_seconds` gives for the difference of two instants that
    /// are not leap seconds).
    pub open spec fn spec_seconds_since(self, earlier: Timestamp) -> int {
        let d = self.spec_unix_nanos() - earlier.spec_unix_nanos();
        if d >= 0 {
            d / 1_000_000_000
        } else {
            -((-d) / 1_000_000_000)
        }
    }

    /// Whole seconds from `earlier` to `self`, rounded toward zero
    pub fn seconds_since(&self, earlier: &Timestamp) -> (s: i128)
        ensures
            s == self.spec_seconds_since(*earlier),
    {
        let d: i128 = (self.secs as i128 - earlier.secs as i128) * 1_000_000_000
            + (self.nanos as i128 - earlier.nanos as i128);
        assert(d == self.spec_unix_nanos() - earlier.spec_unix_nanos()) by (nonlinear_arith)
            requires
                d == (self.secs - earlier.secs) * 1_000_000_000 + (self.nanos - earlier.nanos),
        ;
        let s: i128 = if d >= 0 {
            d / 1_000_000_000
        } else {
            -((-d) / 1_000_000_000)
        };
        s
    }
}

/// Reads the clock with `chrono::Utc::now()` and takes its `timestamp()` and
/// `timestamp_subsec_nanos()`.  Trusted: the nanoseconds are below one second
/// (`Utc::now` builds the value from `SystemTime` with `subsec_nanos`); nothing else is
/// stated: it is the time.
#[verifier::external_body]
pub(crate) fn utc_now() -> (t: Timestamp)
    ensures
        t.nanos < 1_000_000_000,
{
    let now = chrono::Utc::now();
    Timestamp { secs: now.timestamp(), nanos: now.timestamp_subsec_nanos() }
}

/// Reads the system clock: milliseconds since the Unix epoch, 0 before the epoch,
/// truncated to 64 bits.  Trusted, with nothing stated of the result: it is the time.
#[verifier::external_body]
pub(crate) fn now_unix_millis() -> u64 {
    std::time::SystemTime::now().duration_since(std::time::UNIX_EPOCH).unwrap_or_default().as_millis() as u64
}

} // verus!
