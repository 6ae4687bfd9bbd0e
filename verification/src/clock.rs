//! Unix timestamps as `chrono` understands them, and the time elapsed
//! between two of them.

use vstd::prelude::*;

verus! {

/// Smallest Unix timestamp (in seconds) that `chrono` can turn into a
/// `DateTime<Utc>`: January 1 of year -262143, 00:00:00 UTC.
pub open spec fn earliest_unix_seconds() -> int {
    -8334601228800
}

/// Largest Unix timestamp (in seconds) that `chrono` can turn into a
/// `DateTime<Utc>`: December 31 of year 262142, 23:59:59 UTC.
pub open spec fn latest_unix_seconds() -> int {
    8210266876799
}

/// Whether `secs` seconds after the Unix epoch is a representable instant.
pub open spec fn representable(secs: int) -> bool {
    earliest_unix_seconds() <= secs <= latest_unix_seconds()
}

/// Nanoseconds in a second.
pub open spec fn nanos_per_second() -> int {
    1_000_000_000
}

/// Calls `chrono::DateTime::<Utc>::from_timestamp(secs, 0)` and reports
/// whether it produced a value. Claimed: it does exactly when `secs` lies in
/// the range spanned by `NaiveDate::MIN` and `NaiveDate::MAX` (whole days,
/// seconds of the last day included), as chrono's `from_timestamp` and
/// `from_num_days_from_ce_opt` compute it.
#[verifier::external_body]
fn chrono_accepts_timestamp(secs: i64) -> (accepted: bool)
    ensures
        accepted == representable(secs as int),
{
    chrono::DateTime::<chrono::Utc>::from_timestamp(secs, 0).is_some()
}

/// An instant that chrono can represent: whole seconds since the Unix epoch
/// and the nanoseconds into that second.
pub struct Timestamp {
    secs: i64,
    nanos: u32,
}

impl Timestamp {
    #[verifier::type_invariant]
    spec fn inv(self) -> bool {
        representable(self.secs as int) && self.nanos < nanos_per_second()
    }

    /// Whole seconds since the Unix epoch (rounded down).
    pub closed spec fn secs(self) -> int {
        self.secs as int
    }

    /// Nanoseconds past the whole second.
    pub closed spec fn subsec_nanos(self) -> int {
        self.nanos as int
    }

    /// The instant as nanoseconds since the Unix epoch.
    pub open spec fn instant(self) -> int {
        self.secs() * nanos_per_second() + self.subsec_nanos()
    }

    /// The whole seconds since the Unix epoch; always a representable instant.
    pub fn seconds(&self) -> (secs: i64)
        ensures
            secs as int == self.secs(),
            representable(secs as int),
    {
        proof {
            use_type_invariant(self);
        }
        self.secs
    }

    /// The nanoseconds past the whole second; less than a second.
    pub fn nanoseconds(&self) -> (nanos: u32)
        ensures
            nanos as int == self.subsec_nanos(),
            nanos < nanos_per_second(),
    {
        proof {
            use_type_invariant(self);
        }
        self.nanos
    }

    /// The instant `secs` seconds and `nanos` nanoseconds after the Unix
    /// epoch, as a clock reading gives it; `None` where chrono cannot
    /// represent the second or `nanos` is not less than a second.
    pub fn from_parts(secs: i64, nanos: u32) -> (t: Option<Timestamp>)
        ensures
            t is Some <==> (representable(secs as int) && nanos < nanos_per_second()),
            t matches Some(t) ==> t.secs() == secs as int && t.subsec_nanos() == nanos as int,
    {
        if nanos < 1_000_000_000 && chrono_accepts_timestamp(secs) {
            Some(Timestamp { secs, nanos })
        } else {
            None
        }
    }

    /// Nanoseconds from `earlier` to `self`: negative when `earlier` is in
    /// fact later.
    pub fn nanos_since(&self, earlier: &Timestamp) -> (elapsed: i128)
        ensures
            elapsed as int == self.instant() - earlier.instant(),
    {
        proof {
            use_type_invariant(self);
            use_type_invariant(earlier);
        }
        let secs = (self.secs as i128) - (earlier.secs as i128);
        let nanos = (self.nanos as i128) - (earlier.nanos as i128);
        secs * 1_000_000_000 + nanos
    }
}

/// Turns a Unix timestamp in seconds into a `Timestamp`, as the
/// `deserialize_with` hook of a job's `starttime` does; `None` where chrono
/// cannot represent the instant.
pub fn deserialize_unix_timestamp(secs: i64) -> (t: Option<Timestamp>)
    ensures
        t is Some <==> representable(secs as int),
        t matches Some(t) ==> t.secs() == secs as int && t.subsec_nanos() == 0,
{
    if chrono_accepts_timestamp(secs) {
        Some(Timestamp { secs, nanos: 0 })
    } else {
        None
    }
}

} // verus!
