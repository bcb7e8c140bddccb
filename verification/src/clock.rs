//! The time port: the system clock in production, a fixed one in tests.

use time::OffsetDateTime;
use vstd::prelude::*;

use crate::ext::utc_offset;

verus! {

/// Where the service takes the present instant from.
pub trait Clock: Sized {
    /// Whether the clock may read `t`.
    open spec fn may_read(self, t: OffsetDateTime) -> bool {
        true
    }

    /// The present instant.
    fn now(&self) -> (t: OffsetDateTime)
        ensures
            self.may_read(t),
    ;
}

/// The system clock, in UTC.
pub struct SystemClock;

impl Clock for SystemClock {
    /// Any instant, written in UTC.
    open spec fn may_read(self, t: OffsetDateTime) -> bool {
        utc_offset(t) == 0
    }

    fn now(&self) -> (t: OffsetDateTime) {
        OffsetDateTime::now_utc()
    }
}

} // verus!
