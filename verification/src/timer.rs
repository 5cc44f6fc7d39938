//! Timer primitives: the arithmetic between ticks of the architectural
//! counter and spans of time, and the decisions of a busy-wait.

use vstd::arithmetic::div_mod::{lemma_fundamental_div_mod, lemma_hoist_over_denominator};
use vstd::prelude::*;
use vstd::std_specs::ops::AddSpec;

use crate::time::{Duration, NANOS_PER_SEC};

verus! {

/// What a conversion answers for a duration that the counter cannot hold.
pub const DURATION_TOO_BIG: &'static str = "Conversion error. Duration too big";

/// A count of ticks of the architectural counter.
#[derive(Clone, Copy, Debug, PartialEq, Eq, Structural)]
pub struct GenericTimerCounterValue(pub u64);

/// The nanoseconds that `ticks` ticks take at `frequency` ticks per second,
/// rounded down.
pub open spec fn ticks_to_nanos(ticks: nat, frequency: nat) -> nat {
    ((ticks * NANOS_PER_SEC) / (frequency as int)) as nat
}

/// The ticks that fit in `nanos` nanoseconds at `frequency` ticks per
/// second, rounded down.
pub open spec fn nanos_to_ticks(nanos: nat, frequency: nat) -> nat {
    (nanos * frequency) / (NANOS_PER_SEC as nat)
}

/// The nanoseconds of one tick, rounded down.
pub open spec fn resolution_nanos(frequency: nat) -> nat {
    ticks_to_nanos(1, frequency)
}

/// The nanoseconds of the longest span that the counter can hold.
pub open spec fn max_nanos(frequency: nat) -> nat {
    ticks_to_nanos(u64::MAX as nat, frequency)
}

/// What the conversion of `nanos` nanoseconds to ticks answers: the ticks,
/// rounded down, or the error where the span is longer than the counter can
/// hold.
pub open spec fn duration_to_ticks(nanos: nat, frequency: nat) -> Result<u64, &'static str> {
    if nanos > max_nanos(frequency) {
        Err(DURATION_TOO_BIG)
    } else {
        Ok(nanos_to_ticks(nanos, frequency) as u64)
    }
}

/// The sum of two tick counts as the hardware counter forms it: modulo two
/// to the power of 64.
pub open spec fn wrapping_sum(a: u64, b: u64) -> u64 {
    ((a + b) % 0x1_0000_0000_0000_0000) as u64
}

/// The ticks by which the counter has advanced from the count `start` to the
/// count `now`, as the hardware counter counts them: modulo two to the power
/// of 64. A count below `start` lies past the wrap.
pub open spec fn ticks_since(start: u64, now: u64) -> u64 {
    ((now - start) % 0x1_0000_0000_0000_0000) as u64
}

impl GenericTimerCounterValue {
    /// The largest count.
    pub fn max() -> (max: Self)
        ensures
            max@ == u64::MAX,
    {
        GenericTimerCounterValue(u64::MAX)
    }

    /// The ticks counted.
    pub open spec fn view(self) -> nat {
        self.0 as nat
    }

    /// Whether a wait of `delta` ticks that began at the count `start` is
    /// over at the count `self`, read from the counter: whether the counter
    /// has advanced by at least `delta` ticks since, as it counts them.
    pub fn reached(
        self,
        start: GenericTimerCounterValue,
        delta: GenericTimerCounterValue,
    ) -> (done: bool)
        ensures
            done == (ticks_since(start.0, self.0) >= delta.0),
    {
        self.0.wrapping_sub(start.0) >= delta.0
    }
}

impl core::ops::Add for GenericTimerCounterValue {
    type Output = Self;

    /// Counter addition wraps, as the hardware counter does.
    fn add(self, other: Self) -> (sum: Self) {
        GenericTimerCounterValue(self.0.wrapping_add(other.0))
    }
}

impl vstd::std_specs::ops::AddSpecImpl for GenericTimerCounterValue {
    open spec fn obeys_add_spec() -> bool {
        true
    }

    open spec fn add_req(self, other: Self) -> bool {
        true
    }

    open spec fn add_spec(self, other: Self) -> Self {
        GenericTimerCounterValue(wrapping_sum(self.0, other.0))
    }
}

/// Splitting the ticks into whole seconds and a rest gives the same
/// nanoseconds as converting them at once, and the rest stays below a second.
pub proof fn lemma_ticks_to_nanos_split(ticks: nat, frequency: nat)
    requires
        frequency > 0,
    ensures
        ticks_to_nanos(ticks, frequency) == (ticks / frequency) * NANOS_PER_SEC + ((ticks
            % frequency) * NANOS_PER_SEC) / (frequency as int),
        0 <= ((ticks % frequency) * NANOS_PER_SEC) / (frequency as int) < NANOS_PER_SEC,
{
    let q = (ticks / frequency) as int;
    let r = (ticks % frequency) as int;
    let f = frequency as int;
    let n = NANOS_PER_SEC as int;
    lemma_fundamental_div_mod(ticks as int, f);
    assert(ticks * n == r * n + (q * n) * f) by (nonlinear_arith)
        requires
            ticks == f * q + r,
    ;
    lemma_hoist_over_denominator(r * n, q * n, frequency);
    assert(0 <= (r * n) / f < n) by (nonlinear_arith)
        requires
            0 <= r < f,
            n > 0,
    ;
    assert(0 <= (ticks * n) / f) by (nonlinear_arith)
        requires
            ticks >= 0,
            f > 0,
            n > 0,
    ;
}

/// More ticks take no less time.
pub proof fn lemma_ticks_to_nanos_monotonic(a: nat, b: nat, frequency: nat)
    requires
        frequency > 0,
        a <= b,
    ensures
        ticks_to_nanos(a, frequency) <= ticks_to_nanos(b, frequency),
{
    let n = NANOS_PER_SEC as int;
    let f = frequency as int;
    assert((a * n) / f <= (b * n) / f) by (nonlinear_arith)
        requires
            0 <= a <= b,
            n > 0,
            f > 0,
    ;
}

/// A span that the counter can hold converts to ticks that fit in it.
pub proof fn lemma_nanos_to_ticks_fits(nanos: nat, frequency: nat)
    requires
        frequency > 0,
        nanos <= max_nanos(frequency),
    ensures
        nanos_to_ticks(nanos, frequency) <= u64::MAX,
{
    let n = NANOS_PER_SEC as int;
    let f = frequency as int;
    let m = u64::MAX as int;
    let top = (m * n) / f;
    assert(top * f <= m * n) by (nonlinear_arith)
        requires
            top == (m * n) / f,
            f > 0,
            m * n >= 0,
    ;
    assert(nanos * f <= top * f) by (nonlinear_arith)
        requires
            0 <= nanos <= top,
            f > 0,
    ;
    assert((nanos * f) / n <= m) by (nonlinear_arith)
        requires
            nanos * f <= m * n,
            n > 0,
    ;
}

/// A span below the resolution converts to no ticks at all.
pub proof fn lemma_below_resolution_is_zero(nanos: nat, frequency: nat)
    requires
        frequency > 0,
        nanos < resolution_nanos(frequency),
    ensures
        nanos_to_ticks(nanos, frequency) == 0,
        nanos <= max_nanos(frequency),
        duration_to_ticks(nanos, frequency) == Ok::<u64, &'static str>(0),
{
    let n = NANOS_PER_SEC as int;
    let f = frequency as int;
    let res = (1 * n) / f;
    assert(res * f <= n) by (nonlinear_arith)
        requires
            res == (1 * n) / f,
            f > 0,
            n > 0,
    ;
    assert((nanos * f) / n == 0) by (nonlinear_arith)
        requires
            0 <= nanos < res,
            res * f <= n,
            f > 0,
            n > 0,
    ;
    lemma_ticks_to_nanos_monotonic(1, u64::MAX as nat, frequency);
}

/// What a busy-wait has to do.
#[derive(Clone, Copy, Debug, PartialEq, Eq)]
pub enum SpinFor {
    /// The request cannot be met: warn with this message and do not wait.
    Skip(&'static str),
    /// Read the counter until it has advanced by `delta` ticks from the
    /// count `start`, at which the wait began.
    Until { start: GenericTimerCounterValue, delta: GenericTimerCounterValue },
}

/// What `spin_for` decides at count `now` for a span of `nanos` nanoseconds:
/// to wait, from that count on, for the ticks that fit in the span, or to
/// skip a span that the counter cannot hold.
pub open spec fn spin_decision(now: u64, nanos: nat, frequency: nat) -> SpinFor {
    match duration_to_ticks(nanos, frequency) {
        Ok(delta) => SpinFor::Until {
            start: GenericTimerCounterValue(now),
            delta: GenericTimerCounterValue(delta),
        },
        Err(message) => SpinFor::Skip(message),
    }
}

/// The kernel's view of time: the frequency of the architectural counter, and
/// the conversions that rest on it.
pub struct TimeManager {
    frequency: u32,
}

/// The time manager as the kernel has it at boot. Its frequency is the
/// placeholder of one tick per second until the boot path has stored the
/// frequency that the board reports.
pub fn time_manager() -> (manager: TimeManager)
    ensures
        manager.spec_frequency() == 1,
{
    TimeManager::new()
}

impl TimeManager {
    /// The counter's frequency is not zero.
    #[verifier::type_invariant]
    pub closed spec fn wf(&self) -> bool {
        self.frequency > 0
    }

    /// The ticks per second of the counter.
    pub closed spec fn spec_frequency(&self) -> u32 {
        self.frequency
    }

    /// Create an instance, at one tick per second.
    pub fn new() -> (manager: Self)
        ensures
            manager.spec_frequency() == 1,
    {
        Self { frequency: 1 }
    }

    /// Stores the frequency that the board reports. A frequency of zero is
    /// not one: it is refused, and the frequency stays what it was.
    pub fn set_frequency(&mut self, frequency: u32) -> (stored: bool)
        ensures
            stored == (frequency > 0),
            final(self).spec_frequency() == if frequency > 0 {
                frequency
            } else {
                old(self).spec_frequency()
            },
    {
        if frequency > 0 {
            self.frequency = frequency;
            true
        } else {
            false
        }
    }

    /// The ticks per second of the counter.
    #[verifier::when_used_as_spec(spec_frequency)]
    pub fn frequency(&self) -> (frequency: u32)
        ensures
            frequency == self.spec_frequency(),
            frequency > 0,
    {
        proof {
            use_type_invariant(self);
        }
        self.frequency
    }

    /// The span that `counter` ticks take, rounded down to nanoseconds.
    pub fn counter_to_duration(&self, counter: GenericTimerCounterValue) -> (duration: Duration)
        ensures
            duration@ == ticks_to_nanos(counter@, self.spec_frequency() as nat),
    {
        proof {
            use_type_invariant(self);
            lemma_ticks_to_nanos_split(counter@, self.frequency as nat);
        }
        if counter.0 == 0 {
            return Duration::zero();
        }
        let frequency: u64 = self.frequency as u64;
        let secs: u64 = counter.0 / frequency;
        let rest: u64 = counter.0 % frequency;
        assert(rest * 1_000_000_000 <= 0xffff_ffff * 1_000_000_000) by (nonlinear_arith)
            requires
                rest <= 0xffff_ffff,
        ;
        let nanos: u32 = ((rest * 1_000_000_000) / frequency) as u32;
        Duration::new(secs, nanos)
    }

    /// The smallest span that the timer tells from none: that of one tick.
    pub fn resolution(&self) -> (resolution: Duration)
        ensures
            resolution@ == resolution_nanos(self.spec_frequency() as nat),
    {
        self.counter_to_duration(GenericTimerCounterValue(1))
    }

    /// The longest span that the counter can hold: that of its largest count.
    pub fn max_duration(&self) -> (longest: Duration)
        ensures
            longest@ == max_nanos(self.spec_frequency() as nat),
    {
        self.counter_to_duration(GenericTimerCounterValue::max())
    }

    /// The ticks that fit in `duration`, rounded down. A span below the
    /// resolution gives no ticks; a span longer than the counter can hold is
    /// refused.
    pub fn duration_to_counter(&self, duration: Duration) -> (r: Result<
        GenericTimerCounterValue,
        &'static str,
    >)
        ensures
            r == match duration_to_ticks(duration@, self.spec_frequency() as nat) {
                Ok(ticks) => Ok::<GenericTimerCounterValue, &'static str>(
                    GenericTimerCounterValue(ticks),
                ),
                Err(message) => Err(message),
            },
            duration@ < resolution_nanos(self.spec_frequency() as nat) ==> r == Ok::<
                GenericTimerCounterValue,
                &'static str,
            >(GenericTimerCounterValue(0)),
            r.is_err() <==> duration@ > max_nanos(self.spec_frequency() as nat),
    {
        proof {
            use_type_invariant(self);
        }
        if duration.lt(self.resolution()) {
            proof {
                lemma_below_resolution_is_zero(duration@, self.frequency as nat);
            }
            return Ok(GenericTimerCounterValue(0));
        }
        if duration.gt(self.max_duration()) {
            return Err(DURATION_TOO_BIG);
        }
        let frequency: u128 = self.frequency as u128;
        let nanos: u128 = duration.as_nanos();
        proof {
            lemma_nanos_to_ticks_fits(duration@, self.frequency as nat);
            lemma_max_nanos_bound(self.frequency as nat);
            assert(nanos * frequency <= 0xffff_ffff_ffff_ffff * 1_000_000_000 * 0xffff_ffff)
                by (nonlinear_arith)
                requires
                    nanos <= 0xffff_ffff_ffff_ffff * 1_000_000_000,
                    frequency <= 0xffff_ffff,
            ;
        }
        let ticks: u128 = (nanos * frequency) / 1_000_000_000;
        Ok(GenericTimerCounterValue(ticks as u64))
    }

    /// The uptime since power-on of the device, from the count that was read
    /// from the counter.
    pub fn uptime(&self, counter: GenericTimerCounterValue) -> (uptime: Duration)
        ensures
            uptime@ == ticks_to_nanos(counter@, self.spec_frequency() as nat),
    {
        self.counter_to_duration(counter)
    }

    /// What spinning for `duration` takes, from the count `now` that was read
    /// from the counter: the ticks to wait for from that count on, or the
    /// reason not to wait.
    pub fn spin_for(&self, now: GenericTimerCounterValue, duration: Duration) -> (plan: SpinFor)
        ensures
            plan == spin_decision(now.0, duration@, self.spec_frequency() as nat),
    {
        match self.duration_to_counter(duration) {
            Err(message) => SpinFor::Skip(message),
            Ok(delta) => SpinFor::Until { start: now, delta },
        }
    }
}

/// No frequency makes the longest span exceed the counter's largest count
/// taken as seconds.
pub proof fn lemma_max_nanos_bound(frequency: nat)
    requires
        frequency > 0,
    ensures
        max_nanos(frequency) <= u64::MAX * NANOS_PER_SEC,
{
    let n = NANOS_PER_SEC as int;
    let f = frequency as int;
    let m = u64::MAX as int;
    assert((m * n) / f <= m * n) by (nonlinear_arith)
        requires
            m * n >= 0,
            f >= 1,
    ;
}

/// Converting ticks to a span and the span back to ticks never fails and
/// never gives more ticks than there were. It gives the same ticks exactly
/// where the ticks are a whole number of nanoseconds; otherwise the
/// nanoseconds were rounded down, and the way back loses what was cut off.
pub proof fn lemma_round_trip(ticks: u64, frequency: u32)
    requires
        frequency > 0,
    ensures
        duration_to_ticks(ticks_to_nanos(ticks as nat, frequency as nat), frequency as nat)
            is Ok,
        duration_to_ticks(
            ticks_to_nanos(ticks as nat, frequency as nat),
            frequency as nat,
        )->Ok_0 <= ticks,
        duration_to_ticks(ticks_to_nanos(ticks as nat, frequency as nat), frequency as nat)
            == Ok::<u64, &'static str>(ticks) <==> (ticks * NANOS_PER_SEC) % (frequency as int)
            == 0,
{
    let n = NANOS_PER_SEC as int;
    let f = frequency as int;
    let t = ticks as int;
    let nanos = ticks_to_nanos(ticks as nat, frequency as nat);
    lemma_ticks_to_nanos_monotonic(ticks as nat, u64::MAX as nat, frequency as nat);
    lemma_nanos_to_ticks_fits(nanos, frequency as nat);
    lemma_ticks_to_nanos_split(ticks as nat, frequency as nat);
    let rest = (t * n) % f;
    lemma_fundamental_div_mod(t * n, f);
    assert(nanos == (t * n) / f);
    assert(nanos * f == t * n - rest) by (nonlinear_arith)
        requires
            t * n == f * nanos + rest,
    ;
    assert(0 <= rest < f) by (nonlinear_arith)
        requires
            rest == (t * n) % f,
            f > 0,
    ;
    if rest == 0 {
        assert((t * n) / n == t) by (nonlinear_arith)
            requires
                n > 0,
        ;
    } else {
        assert((t * n - rest) / n < t) by (nonlinear_arith)
            requires
                rest > 0,
                n > 0,
        ;
    }
    assert((t * n - rest) / n <= t) by (nonlinear_arith)
        requires
            rest >= 0,
            n > 0,
    ;
}

/// Counter addition wraps: the sum is the plain sum while that fits in 64
/// bits, and the plain sum less two to the power of 64 once it does not. One
/// tick past the largest count is zero.
pub proof fn lemma_counter_addition_wraps(a: GenericTimerCounterValue, b: GenericTimerCounterValue)
    ensures
        a@ + b@ <= u64::MAX ==> a.add_spec(b)@ == a@ + b@,
        a@ + b@ > u64::MAX ==> a.add_spec(b)@ == a@ + b@ - 0x1_0000_0000_0000_0000,
        a@ == u64::MAX && b@ == 1 ==> a.add_spec(b)@ == 0,
        a.add_spec(b) == b.add_spec(a),
{
}

/// A wait is over when the counter has advanced by the ticks waited for,
/// and not before, whether or not the counter wraps on the way: at the count
/// that lies `advanced` ticks past `start`, formed as the hardware counter
/// forms it, `advanced` ticks have passed. So a wait for no ticks is over at
/// once, and a wait for some is not over at the count at which it began.
pub proof fn lemma_wait_is_over_after_its_ticks(
    start: GenericTimerCounterValue,
    advanced: GenericTimerCounterValue,
)
    ensures
        ticks_since(start.0, start.add_spec(advanced).0) == advanced.0,
        ticks_since(start.0, start.0) == 0,
{
}

} // verus!
