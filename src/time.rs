use vstd::prelude::*;

verus! {

/// Nanoseconds in one second.
pub const NANOS_PER_SEC: u32 = 1_000_000_000;

/// A UTC instant: whole seconds since the Unix epoch and the nanoseconds past
/// that second. A leap second runs its nanoseconds on past one full second.
#[derive(Clone, Copy, Debug, PartialEq, Eq, Structural)]
pub struct Timestamp {
    pub secs: i64,
    pub nanos: u32,
}

impl Timestamp {
    /// The nanoseconds stay below two seconds' worth (one leap second at most).
    pub open spec fn wf(self) -> bool {
        self.nanos < 2 * NANOS_PER_SEC
    }

    /// `self` is at or before `other`, seconds first and nanoseconds second.
    pub open spec fn spec_le(self, other: Timestamp) -> bool {
        self.secs < other.secs || (self.secs == other.secs && self.nanos <= other.nanos)
    }

    /// Whether `secs` more seconds still fit after this instant.
    pub open spec fn can_add_secs(self, secs: u64) -> bool {
        self.secs + secs <= i64::MAX
    }

    /// The instant `secs` seconds later.
    pub open spec fn spec_plus_secs(self, secs: u64) -> Timestamp
        recommends
            self.can_add_secs(secs),
    {
        Timestamp { secs: (self.secs + secs) as i64, nanos: self.nanos }
    }

    pub fn new(secs: i64, nanos: u32) -> (r: Timestamp)
        ensures
            r.secs == secs,
            r.nanos == nanos,
    {
        Timestamp { secs, nanos }
    }

    /// Whether `self` comes at or before `other`.
    pub fn is_not_after(&self, other: &Timestamp) -> (r: bool)
        ensures
            r == self.spec_le(*other),
    {
        self.secs < other.secs || (self.secs == other.secs && self.nanos <= other.nanos)
    }

    /// The instant `secs` seconds later, or `None` where it would leave the range
    /// of whole seconds.
    pub fn checked_plus_secs(&self, secs: u64) -> (r: Option<Timestamp>)
        ensures
            self.can_add_secs(secs) ==> r == Some(self.spec_plus_secs(secs)),
            !self.can_add_secs(secs) ==> r is None,
    {
        let total: i128 = self.secs as i128 + secs as i128;
        if total > i64::MAX as i128 {
            None
        } else {
            Some(Timestamp { secs: total as i64, nanos: self.nanos })
        }
    }
}

/// Relies on chrono::Utc::now, read back through DateTime::timestamp and
/// DateTime::timestamp_subsec_nanos: the system clock as seconds since the Unix
/// epoch (never before it) and the nanoseconds below one second.
#[verifier::external_body]
pub(crate) fn clock_now() -> (r: Timestamp)
    ensures
        r.secs >= 0,
        r.nanos < NANOS_PER_SEC,
{
    let now = chrono::Utc::now();
    Timestamp { secs: now.timestamp(), nanos: now.timestamp_subsec_nanos() }
}

} // verus!
