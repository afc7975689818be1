//! One oscillator: when it is due, and the events it emits.

use crate::error::ConfigError;
use crate::note::Note;
use crate::time::{period_of_rate, SCALED_MINUTE};
use vstd::prelude::*;

verus! {

/// One fire of one oscillator.
#[derive(Debug, Clone, Copy, PartialEq, Eq, Structural)]
pub struct FireEvent {
    /// The oscillator that fired.
    pub identity: Note,
    /// The time at which it fired, in nanoseconds since the session began.
    pub fired_at: u64,
}

/// What an oscillator is at one moment.
pub struct OscillatorModel {
    /// Which of the nine oscillators this is.
    pub identity: Note,
    /// Length of one cycle, in nanoseconds.
    pub period: nat,
    /// Time of the next fire, in nanoseconds since the session began.
    pub next_due: nat,
}

impl OscillatorModel {
    /// Whether the oscillator has to fire at `now`.
    pub open spec fn is_due(self, now: nat) -> bool {
        now >= self.next_due
    }

    /// The event of a fire of the oscillator at `now`.
    pub open spec fn event(self, now: u64) -> FireEvent {
        FireEvent { identity: self.identity, fired_at: now }
    }

    /// The oscillator after a fire at `now` under the cooperative policy: the
    /// next fire is due one period after `now`, however late `now` was.
    pub open spec fn fired(self, now: nat) -> OscillatorModel {
        OscillatorModel { next_due: now + self.period, ..self }
    }

    /// The oscillator after a check at `now` under the cooperative policy.
    pub open spec fn polled(self, now: nat) -> OscillatorModel {
        if self.is_due(now) {
            self.fired(now)
        } else {
            self
        }
    }

    /// The oscillator after one fire of its own timer: the due time moves on by
    /// exactly one period.
    pub open spec fn advanced(self) -> OscillatorModel {
        OscillatorModel { next_due: self.next_due + self.period, ..self }
    }

    /// The oscillator after cooperative fires at each of `times`, in order.
    pub open spec fn after_fires(self, times: Seq<nat>) -> OscillatorModel
        decreases times.len(),
    {
        if times.len() == 0 {
            self
        } else {
            self.after_fires(times.drop_last()).fired(times.last())
        }
    }

    /// The oscillator after `n` fires of its own timer.
    pub open spec fn after_advances(self, n: nat) -> OscillatorModel
        decreases n,
    {
        if n == 0 {
            self
        } else {
            self.after_advances((n - 1) as nat).advanced()
        }
    }

    /// Each of `times` is a moment at which the oscillator, having fired at all
    /// the earlier ones, is due.
    pub open spec fn admits(self, times: Seq<nat>) -> bool
        decreases times.len(),
    {
        times.len() == 0 || (self.admits(times.drop_last()) && self.after_fires(
            times.drop_last(),
        ).is_due(times.last()))
    }

    /// Each of `times` is the very moment at which the oscillator, having fired
    /// at all the earlier ones, becomes due.
    pub open spec fn on_time(self, times: Seq<nat>) -> bool
        decreases times.len(),
    {
        times.len() == 0 || (self.on_time(times.drop_last()) && self.after_fires(
            times.drop_last(),
        ).next_due == times.last())
    }
}

/// Fires change neither the identity nor the period of an oscillator.
pub proof fn lemma_fires_keep_identity_and_period(m: OscillatorModel, times: Seq<nat>)
    ensures
        m.after_fires(times).identity == m.identity,
        m.after_fires(times).period == m.period,
    decreases times.len(),
{
    if times.len() > 0 {
        lemma_fires_keep_identity_and_period(m, times.drop_last());
    }
}

/// After fires that each came at the very moment at which it was due, the next
/// fire is due one period per fire after the first due time.
pub proof fn lemma_due_after_fires_on_time(m: OscillatorModel, times: Seq<nat>)
    requires
        m.on_time(times),
    ensures
        m.after_fires(times).next_due == m.next_due + times.len() * m.period,
    decreases times.len(),
{
    if times.len() > 0 {
        let earlier = times.drop_last();
        lemma_due_after_fires_on_time(m, earlier);
        lemma_fires_keep_identity_and_period(m, earlier);
        assert((earlier.len() + 1) * m.period == earlier.len() * m.period + m.period)
            by (nonlinear_arith);
    }
}

/// After `n` fires of the oscillator's own timer, the next fire is due one
/// period per fire after the first due time.
pub proof fn lemma_due_after_advances(m: OscillatorModel, n: nat)
    ensures
        m.after_advances(n).identity == m.identity,
        m.after_advances(n).period == m.period,
        m.after_advances(n).next_due == m.next_due + n * m.period,
    decreases n,
{
    if n > 0 {
        lemma_due_after_advances(m, (n - 1) as nat);
        assert(n * m.period == (n - 1) * m.period + m.period) by (nonlinear_arith);
    }
}

/// Under the cooperative policy the due time never moves backward: after fires
/// that each came when due or later, the next fire is due no earlier than one
/// period per fire after the first due time.
pub proof fn lemma_due_never_earlier(m: OscillatorModel, times: Seq<nat>)
    requires
        m.admits(times),
    ensures
        m.after_fires(times).next_due >= m.next_due + times.len() * m.period,
    decreases times.len(),
{
    if times.len() > 0 {
        let earlier = times.drop_last();
        lemma_due_never_earlier(m, earlier);
        lemma_fires_keep_identity_and_period(m, earlier);
        assert((earlier.len() + 1) * m.period == earlier.len() * m.period + m.period)
            by (nonlinear_arith);
    }
}

/// Neither a check nor a fire of the oscillator's own timer ever moves the due
/// time backward.
pub proof fn lemma_due_never_moves_back(m: OscillatorModel, now: nat)
    ensures
        m.polled(now).next_due >= m.next_due,
        m.advanced().next_due >= m.next_due,
{
}

/// An oscillator that has fired is not due again until one full period has
/// passed, and is due from that moment on. A check leaves no oscillator due
/// at the time of the check.
pub proof fn lemma_quiet_for_one_period(m: OscillatorModel, now: nat, later: nat)
    requires
        m.period > 0,
    ensures
        m.fired(now).is_due(later) <==> later >= now + m.period,
        !m.polled(now).is_due(now),
{
}

/// The fires of one oscillator are at least one period apart, so its events
/// come in strictly increasing order of time.
pub proof fn lemma_fire_times_increase(m: OscillatorModel, times: Seq<nat>, i: int, j: int)
    requires
        m.period > 0,
        m.admits(times),
        0 <= i < j < times.len(),
    ensures
        times[i] + m.period <= times[j],
        times[i] < times[j],
    decreases times.len(),
{
    let earlier = times.drop_last();
    if j < times.len() - 1 {
        lemma_fire_times_increase(m, earlier, i, j);
    } else {
        lemma_fires_keep_identity_and_period(m, earlier.drop_last());
        if i < j - 1 {
            lemma_fire_times_increase(m, earlier, i, j - 1);
        }
    }
}

/// An oscillator. Its period is never zero.
#[derive(Debug, Clone, Copy, PartialEq, Eq, Structural)]
pub struct Oscillator {
    identity: Note,
    period: u64,
    next_due: u64,
}

impl View for Oscillator {
    type V = OscillatorModel;

    closed spec fn view(&self) -> OscillatorModel {
        OscillatorModel {
            identity: self.identity,
            period: self.period as nat,
            next_due: self.next_due as nat,
        }
    }
}

impl Oscillator {
    #[verifier::type_invariant]
    spec fn positive_period(self) -> bool {
        self.period > 0
    }

    /// An oscillator with a period of `period` nanoseconds that first fires at
    /// `first_due`. A period of zero is refused.
    pub fn new(identity: Note, period: u64, first_due: u64) -> (r: Result<Oscillator, ConfigError>)
        ensures
            period == 0 ==> r == Err::<Oscillator, ConfigError>(ConfigError::ZeroPeriod),
            period > 0 ==> r is Ok && r.unwrap()@ == (OscillatorModel {
                identity,
                period: period as nat,
                next_due: first_due as nat,
            }),
    {
        if period == 0 {
            Err(ConfigError::ZeroPeriod)
        } else {
            Ok(Oscillator { identity, period, next_due: first_due })
        }
    }

    /// An oscillator that beats at `rate` and first fires at `first_due`. A rate
    /// of zero is refused, and so is one so high that the period would be zero.
    pub fn from_rate(identity: Note, rate: u64, first_due: u64) -> (r: Result<
        Oscillator,
        ConfigError,
    >)
        ensures
            rate == 0 ==> r == Err::<Oscillator, ConfigError>(ConfigError::ZeroRate),
            rate > SCALED_MINUTE ==> r == Err::<Oscillator, ConfigError>(ConfigError::ZeroPeriod),
            0 < rate <= SCALED_MINUTE ==> r is Ok && r.unwrap()@ == (OscillatorModel {
                identity,
                period: period_of_rate(rate),
                next_due: first_due as nat,
            }),
            r is Ok ==> r.unwrap()@.period > 0,
    {
        if rate == 0 {
            Err(ConfigError::ZeroRate)
        } else {
            let period: u64 = SCALED_MINUTE / rate;
            proof {
                let minute: int = SCALED_MINUTE as int;
                let r: int = rate as int;
                assert(r > minute ==> minute / r == 0) by (nonlinear_arith)
                    requires
                        minute >= 0,
                        r > 0,
                ;
                assert(r <= minute ==> minute / r > 0) by (nonlinear_arith)
                    requires
                        minute >= 0,
                        r > 0,
                ;
            }
            Oscillator::new(identity, period, first_due)
        }
    }

    /// The oscillator of `identity` at its fixed rate, first firing at `first_due`.
    pub fn for_note(identity: Note, first_due: u64) -> (oscillator: Oscillator)
        ensures
            oscillator@ == (OscillatorModel {
                identity,
                period: identity.spec_period(),
                next_due: first_due as nat,
            }),
            oscillator@.period > 0,
    {
        Oscillator { identity, period: identity.period(), next_due: first_due }
    }

    /// Which of the nine oscillators this is.
    pub fn identity(&self) -> (identity: Note)
        ensures
            identity == self@.identity,
    {
        self.identity
    }

    /// Length of one cycle.
    pub fn period(&self) -> (period: u64)
        ensures
            period == self@.period,
            period > 0,
    {
        proof {
            use_type_invariant(self);
        }
        self.period
    }

    /// Time of the next fire.
    pub fn next_due(&self) -> (next_due: u64)
        ensures
            next_due == self@.next_due,
    {
        self.next_due
    }

    /// Whether the oscillator has to fire at `now`.
    pub fn is_due(&self, now: u64) -> (due: bool)
        ensures
            due == self@.is_due(now as nat),
    {
        now >= self.next_due
    }

    /// Cooperative check at `now`. A due oscillator fires once, whatever number
    /// of periods has passed, and is next due one period after `now`. One that
    /// is not due stays as it is.
    pub fn poll(&mut self, now: u64) -> (fired: Option<FireEvent>)
        requires
            old(self)@.is_due(now as nat) ==> now + old(self)@.period <= u64::MAX,
        ensures
            final(self)@ == old(self)@.polled(now as nat),
            final(self)@.period > 0,
            fired == if old(self)@.is_due(now as nat) {
                Some(old(self)@.event(now))
            } else {
                None
            },
    {
        proof {
            use_type_invariant(&*self);
        }
        if now >= self.next_due {
            self.next_due = now + self.period;
            Some(FireEvent { identity: self.identity, fired_at: now })
        } else {
            None
        }
    }

    /// Fire of the oscillator's own timer, which has slept one period and woken
    /// at `now`. The oscillator fires without a check, and its due time moves on
    /// by exactly one period.
    pub fn fire(&mut self, now: u64) -> (event: FireEvent)
        requires
            old(self)@.next_due + old(self)@.period <= u64::MAX,
        ensures
            final(self)@ == old(self)@.advanced(),
            final(self)@.period > 0,
            event == old(self)@.event(now),
    {
        proof {
            use_type_invariant(&*self);
        }
        self.next_due = self.next_due + self.period;
        FireEvent { identity: self.identity, fired_at: now }
    }
}

} // verus!
