//! A little value type for absolute time, counted in microseconds.

use vstd::arithmetic::div_mod::lemma_div_nonincreasing;
use vstd::arithmetic::div_mod::lemma_div_pos_is_pos;
use vstd::arithmetic::div_mod::lemma_fundamental_div_mod;
use vstd::arithmetic::div_mod::lemma_mod_division_less_than_divisor;
use vstd::prelude::*;

verus! {

/// The whole seconds in a microsecond count, rounded toward zero.
pub open spec fn spec_secs(us: int) -> int {
    if us >= 0 {
        us / 1_000_000
    } else {
        -((-us) / 1_000_000)
    }
}

/// What a microsecond count holds under a whole second; it carries the sign
/// of the count.
pub open spec fn spec_subsec_micros(us: int) -> int {
    us - spec_secs(us) * 1_000_000
}

/// An absolute point in time: a signed count of microseconds since an epoch.
/// Instants are compared and ordered by that count alone.
#[derive(Debug, Clone, Copy, PartialEq, Eq, Hash, Ord, Structural)]
pub struct Instant {
    micros: i64,
}

impl PartialOrd for Instant {
    /// Instants are ordered by their microsecond count.
    fn partial_cmp(&self, other: &Instant) -> Option<core::cmp::Ordering> {
        if self.micros < other.micros {
            Some(core::cmp::Ordering::Less)
        } else if self.micros == other.micros {
            Some(core::cmp::Ordering::Equal)
        } else {
            Some(core::cmp::Ordering::Greater)
        }
    }
}

impl vstd::std_specs::cmp::PartialOrdSpecImpl for Instant {
    open spec fn obeys_partial_cmp_spec() -> bool {
        true
    }

    open spec fn partial_cmp_spec(&self, other: &Instant) -> Option<core::cmp::Ordering> {
        if self.spec_micros() < other.spec_micros() {
            Some(core::cmp::Ordering::Less)
        } else if self.spec_micros() == other.spec_micros() {
            Some(core::cmp::Ordering::Equal)
        } else {
            Some(core::cmp::Ordering::Greater)
        }
    }
}

impl Instant {
    /// The microsecond count this instant stands for.
    pub closed spec fn spec_micros(self) -> int {
        self.micros as int
    }

    /// The instant the given number of microseconds after the epoch.
    pub fn from_micros(micros: i64) -> (r: Self)
        ensures
            r.spec_micros() == micros,
    {
        Instant { micros }
    }

    /// The instant the given number of milliseconds after the epoch.
    pub fn from_millis(millis: i64) -> (r: Self)
        requires
            i64::MIN <= millis * 1000 <= i64::MAX,
        ensures
            r.spec_micros() == millis * 1000,
    {
        Instant { micros: millis * 1000 }
    }

    /// The instant the given number of seconds after the epoch.
    pub fn from_secs(secs: i64) -> (r: Self)
        requires
            i64::MIN <= secs * 1_000_000 <= i64::MAX,
        ensures
            r.spec_micros() == secs * 1_000_000,
    {
        Instant { micros: secs * 1_000_000 }
    }

    /// The whole microsecond count.
    pub fn total_micros(&self) -> (r: i64)
        ensures
            r == self.spec_micros(),
    {
        self.micros
    }

    /// The seconds part of this instant, rounded toward zero.
    pub fn secs(&self) -> (r: i64)
        ensures
            r == spec_secs(self.spec_micros()),
            self.spec_micros() >= 0 ==> 0 <= r,
    {
        proof {
            let x = self.micros as int;
            if x > 0 {
                lemma_div_pos_is_pos(x, 1_000_000);
                lemma_div_nonincreasing(x, 1_000_000);
            } else if x < 0 {
                lemma_div_pos_is_pos(-x, 1_000_000);
                lemma_div_nonincreasing(-x, 1_000_000);
            }
        }
        match self.micros.checked_div(1_000_000) {
            Some(s) => s,
            None => 0,
        }
    }

    /// The sub-second microseconds part of this instant.
    pub fn micros(&self) -> (r: i64)
        ensures
            r == spec_subsec_micros(self.spec_micros()),
            self.spec_micros() >= 0 ==> 0 <= r < 1_000_000,
    {
        proof {
            let x = self.micros as int;
            if x > 0 {
                lemma_mod_division_less_than_divisor(x, 1_000_000);
                lemma_fundamental_div_mod(x, 1_000_000);
            } else if x < 0 {
                lemma_mod_division_less_than_divisor(-x, 1_000_000);
                lemma_fundamental_div_mod(-x, 1_000_000);
            }
        }
        match self.micros.checked_rem(1_000_000) {
            Some(m) => m,
            None => 0,
        }
    }
}

/// Instants are identified by their microsecond count: equal counts make
/// equal instants.
pub proof fn lemma_instant_eq(a: Instant, b: Instant)
    requires
        a.spec_micros() == b.spec_micros(),
    ensures
        a == b,
{
}

/// Seconds and milliseconds agree: the instant built from a count of
/// seconds equals the one built from a thousand times as many milliseconds.
pub proof fn lemma_from_secs_equals_from_millis(n: int, a: Instant, b: Instant)
    requires
        a.spec_micros() == n * 1_000_000,
        b.spec_micros() == (n * 1000) * 1000,
    ensures
        a == b,
{
    assert((n * 1000) * 1000 == n * 1_000_000) by (nonlinear_arith);
    lemma_instant_eq(a, b);
}

} // verus!
