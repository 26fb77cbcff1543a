//! Wall-clock instants at the resolution the scheduler works with.

use vstd::prelude::*;

verus! {

/// Nanoseconds in one second.
pub const NANOS_PER_SECOND: u32 = 1_000_000_000;

/// The last whole second a [`Timestamp`] can hold: 9999-12-31T23:59:59Z.
pub const MAX_SECONDS: i64 = 253_402_300_799;

/// Reads the system clock with `chrono::Utc::now` and returns the seconds
/// since the Unix epoch and the nanoseconds within that second. Nothing is
/// claimed of the result: it is whatever the clock shows.
#[verifier::external_body]
fn read_clock() -> (i64, u32) {
    let now = chrono::Utc::now();
    (now.timestamp(), now.timestamp_subsec_nanos())
}

/// An instant of UTC wall-clock time between the Unix epoch and the end of
/// the year 9999, as whole seconds since the epoch plus the nanoseconds that
/// have passed within that second.
#[derive(Clone, Copy, Debug)]
pub struct Timestamp {
    secs: i64,
    nanos: u32,
}

impl Timestamp {
    /// The whole seconds since the Unix epoch.
    pub closed spec fn seconds(self) -> int {
        self.secs as int
    }

    /// The nanoseconds that have passed within the current second.
    pub closed spec fn subsec_nanos(self) -> int {
        self.nanos as int
    }

    /// The values a timestamp can hold.
    pub open spec fn in_range(secs: int, nanos: int) -> bool {
        0 <= secs <= MAX_SECONDS && 0 <= nanos < NANOS_PER_SECOND
    }

    /// Holds of every timestamp a program can have.
    pub open spec fn wf(self) -> bool {
        Self::in_range(self.seconds(), self.subsec_nanos())
    }

    #[verifier::type_invariant]
    spec fn valid(self) -> bool {
        self.wf()
    }

    /// Builds the timestamp `secs` seconds and `nanos` nanoseconds after the
    /// Unix epoch, if a timestamp can hold it.
    pub fn new(secs: i64, nanos: u32) -> (r: Option<Timestamp>)
        ensures
            r is Some <==> Self::in_range(secs as int, nanos as int),
            r matches Some(t) ==> t.seconds() == secs && t.subsec_nanos() == nanos && t.wf(),
    {
        if 0 <= secs && secs <= MAX_SECONDS && nanos < NANOS_PER_SECOND {
            Some(Timestamp { secs, nanos })
        } else {
            None
        }
    }

    /// The current instant by the system clock, if a timestamp can hold it.
    pub fn now() -> (r: Option<Timestamp>)
        ensures
            r matches Some(t) ==> t.wf(),
    {
        let (secs, nanos) = read_clock();
        Timestamp::new(secs, nanos)
    }

    /// The instant truncated to whole-second resolution.
    pub fn whole_second(&self) -> (secs: i64)
        ensures
            secs == self.seconds(),
            self.wf(),
    {
        proof {
            use_type_invariant(self);
        }
        self.secs
    }

    /// The part of the instant below one second, in nanoseconds.
    pub fn nanosecond(&self) -> (nanos: u32)
        ensures
            nanos == self.subsec_nanos(),
            self.wf(),
    {
        proof {
            use_type_invariant(self);
        }
        self.nanos
    }

    /// A whole second lies strictly after the instant one second before
    /// `self` exactly when it lies strictly after the whole second before
    /// that of `self`: the part of `self` below one second makes no
    /// difference to which whole seconds come after.
    pub proof fn lemma_whole_seconds_after(self, second: int)
        requires
            self.wf(),
        ensures
            second * NANOS_PER_SECOND > (self.seconds() - 1) * NANOS_PER_SECOND
                + self.subsec_nanos() <==> second > self.seconds() - 1,
    {
    }
}

} // verus!
