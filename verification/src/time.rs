//! Spans of time.

use vstd::prelude::*;

verus! {

/// Nanoseconds in a second.
pub const NANOS_PER_SEC: u32 = 1_000_000_000;

/// Nanoseconds in a millisecond.
pub const NANOS_PER_MILLI: u32 = 1_000_000;

/// Nanoseconds in a microsecond.
pub const NANOS_PER_MICRO: u32 = 1_000;

/// A span of time: whole seconds and the nanoseconds of the second begun.
/// Never negative.
#[derive(Clone, Copy, Debug, PartialEq, Eq, Structural)]
pub struct Duration {
    secs: u64,
    nanos: u32,
}

impl Duration {
    /// The sub-second part is less than a second.
    #[verifier::type_invariant]
    pub closed spec fn wf(self) -> bool {
        self.nanos < NANOS_PER_SEC
    }

    /// The whole seconds.
    pub closed spec fn spec_as_secs(self) -> u64 {
        self.secs
    }

    /// The nanoseconds of the second begun.
    pub closed spec fn spec_subsec_nanos(self) -> u32 {
        self.nanos
    }

    /// The span in nanoseconds.
    pub open spec fn view(self) -> nat {
        (self.spec_as_secs() * NANOS_PER_SEC + self.spec_subsec_nanos()) as nat
    }

    /// The span of `secs` seconds and `nanos` nanoseconds.
    pub closed spec fn new_spec(secs: u64, nanos: u32) -> Duration {
        Duration { secs, nanos }
    }

    /// A valid span is known by its nanoseconds, and its parts are theirs by
    /// division.
    pub proof fn lemma_view(self)
        requires
            self.wf(),
        ensures
            self.spec_as_secs() == self@ / (NANOS_PER_SEC as nat),
            self.spec_subsec_nanos() == self@ % (NANOS_PER_SEC as nat),
    {
        vstd::arithmetic::div_mod::lemma_fundamental_div_mod_converse(
            self@ as int,
            NANOS_PER_SEC as int,
            self.secs as int,
            self.nanos as int,
        );
    }

    /// Two valid spans of the same nanoseconds are the same span.
    pub proof fn lemma_equal_by_view(self, other: Duration)
        requires
            self.wf(),
            other.wf(),
            self@ == other@,
        ensures
            self == other,
    {
        self.lemma_view();
        other.lemma_view();
    }

    /// The parts of the span that is made of `secs` and `nanos`.
    pub proof fn lemma_new_spec(secs: u64, nanos: u32)
        ensures
            Duration::new_spec(secs, nanos).spec_as_secs() == secs,
            Duration::new_spec(secs, nanos).spec_subsec_nanos() == nanos,
            Duration::new_spec(secs, nanos).wf() <==> nanos < NANOS_PER_SEC,
    {
    }

    /// No time at all.
    pub fn zero() -> (d: Self)
        ensures
            d@ == 0,
            d.wf(),
    {
        Duration { secs: 0, nanos: 0 }
    }

    /// The span of `secs` seconds and `nanos` nanoseconds, where `nanos` is
    /// less than a second.
    pub fn new(secs: u64, nanos: u32) -> (d: Self)
        requires
            nanos < NANOS_PER_SEC,
        ensures
            d.wf(),
            d == Duration::new_spec(secs, nanos),
            d.spec_as_secs() == secs,
            d.spec_subsec_nanos() == nanos,
            d@ == secs * NANOS_PER_SEC + nanos,
    {
        Duration { secs, nanos }
    }

    /// The span of `secs` seconds.
    pub fn from_secs(secs: u64) -> (d: Self)
        ensures
            d.wf(),
            d@ == secs * NANOS_PER_SEC,
    {
        Duration { secs, nanos: 0 }
    }

    /// The span of `millis` milliseconds.
    pub fn from_millis(millis: u64) -> (d: Self)
        ensures
            d.wf(),
            d@ == millis * NANOS_PER_MILLI,
    {
        let secs: u64 = millis / 1_000;
        let nanos: u32 = ((millis % 1_000) as u32) * NANOS_PER_MILLI;
        Duration { secs, nanos }
    }

    /// The span of `micros` microseconds.
    pub fn from_micros(micros: u64) -> (d: Self)
        ensures
            d.wf(),
            d@ == micros * NANOS_PER_MICRO,
    {
        let secs: u64 = micros / 1_000_000;
        let nanos: u32 = ((micros % 1_000_000) as u32) * NANOS_PER_MICRO;
        Duration { secs, nanos }
    }

    /// The span of `nanos` nanoseconds.
    pub fn from_nanos(nanos: u64) -> (d: Self)
        ensures
            d.wf(),
            d@ == nanos,
    {
        let secs: u64 = nanos / 1_000_000_000;
        let sub: u32 = (nanos % 1_000_000_000) as u32;
        Duration { secs, nanos: sub }
    }

    /// The whole seconds.
    #[verifier::when_used_as_spec(spec_as_secs)]
    pub fn as_secs(self) -> (secs: u64)
        ensures
            secs == self.spec_as_secs(),
            secs == self@ / (NANOS_PER_SEC as nat),
    {
        proof {
            use_type_invariant(self);
            self.lemma_view();
        }
        self.secs
    }

    /// The nanoseconds of the second begun.
    #[verifier::when_used_as_spec(spec_subsec_nanos)]
    pub fn subsec_nanos(self) -> (nanos: u32)
        ensures
            nanos == self.spec_subsec_nanos(),
            nanos == self@ % (NANOS_PER_SEC as nat),
            nanos < NANOS_PER_SEC,
    {
        proof {
            use_type_invariant(self);
            self.lemma_view();
        }
        self.nanos
    }

    /// The microseconds of the second begun.
    pub fn subsec_micros(self) -> (micros: u32)
        ensures
            micros == (self@ % (NANOS_PER_SEC as nat)) / (NANOS_PER_MICRO as nat),
            micros < 1_000_000,
    {
        proof {
            use_type_invariant(self);
            self.lemma_view();
        }
        self.nanos / NANOS_PER_MICRO
    }

    /// The span in nanoseconds.
    pub fn as_nanos(self) -> (nanos: u128)
        ensures
            nanos == self@,
    {
        proof {
            use_type_invariant(self);
        }
        (self.secs as u128) * 1_000_000_000 + (self.nanos as u128)
    }

    /// Whether `self` is shorter than `other`.
    pub fn lt(self, other: Duration) -> (shorter: bool)
        ensures
            shorter == (self@ < other@),
    {
        self.as_nanos() < other.as_nanos()
    }

    /// Whether `self` is longer than `other`.
    pub fn gt(self, other: Duration) -> (longer: bool)
        ensures
            longer == (self@ > other@),
    {
        self.as_nanos() > other.as_nanos()
    }
}

} // verus!
