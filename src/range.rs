//! The state machine of a range gauge: a value together with the lowest and
//! highest values it held since the range was last read.

use vstd::prelude::*;

verus! {

/// One update applied to a range gauge.
#[derive(Clone, Copy, Debug, PartialEq, Eq, Structural)]
pub enum GaugeStep {
    IncBy(u64),
    DecBy(u64),
    SetTo(u64),
}

/// A gauge value with the lowest and highest values held since the last read.
#[derive(Clone, Copy, Debug, PartialEq, Eq, Structural)]
pub struct RangeReading {
    pub value: u64,
    pub min: u64,
    pub max: u64,
}

/// `a + b` as a 64-bit counter computes it: wrapping past `u64::MAX`.
pub open spec fn wrapped_add(a: u64, b: u64) -> u64 {
    if a + b > u64::MAX {
        (a + b - 0x1_0000_0000_0000_0000) as u64
    } else {
        (a + b) as u64
    }
}

/// `a - b` as a 64-bit counter computes it: wrapping below zero.
pub open spec fn wrapped_sub(a: u64, b: u64) -> u64 {
    if a >= b {
        (a - b) as u64
    } else {
        (a - b + 0x1_0000_0000_0000_0000) as u64
    }
}

/// The counter's value after `step`, starting from `value`.
pub open spec fn value_after(value: u64, step: GaugeStep) -> u64 {
    match step {
        GaugeStep::IncBy(v) => wrapped_add(value, v),
        GaugeStep::DecBy(v) => wrapped_sub(value, v),
        GaugeStep::SetTo(v) => v,
    }
}

/// Whether `step` carries the counter past either end of the `u64` range.
pub open spec fn step_wraps(value: u64, step: GaugeStep) -> bool {
    match step {
        GaugeStep::IncBy(v) => value + v > u64::MAX,
        GaugeStep::DecBy(v) => value < v,
        GaugeStep::SetTo(_) => false,
    }
}

pub open spec fn lower(a: u64, b: u64) -> u64 {
    if a <= b { a } else { b }
}

pub open spec fn higher(a: u64, b: u64) -> u64 {
    if a >= b { a } else { b }
}

/// The counter's value after `step`, starting from `value`; increments and
/// decrements wrap as the counter's atomic operations do.
pub fn next_value(value: u64, step: GaugeStep) -> (r: u64)
    ensures
        r == value_after(value, step),
{
    match step {
        GaugeStep::IncBy(v) => value.wrapping_add(v),
        GaugeStep::DecBy(v) => value.wrapping_sub(v),
        GaugeStep::SetTo(v) => v,
    }
}

/// Whether `candidate` moves the recorded extremum `current`: past it upward
/// for a maximum, downward for a minimum.
pub fn extends_range(current: u64, candidate: u64, upward: bool) -> (r: bool)
    ensures
        r == (if upward { current < candidate } else { current > candidate }),
{
    if upward {
        current < candidate
    } else {
        current > candidate
    }
}

/// One update: an increment may only raise the maximum, a decrement may only
/// lower the minimum, and a set may do either.
pub open spec fn apply_step(r: RangeReading, step: GaugeStep) -> RangeReading {
    let n = value_after(r.value, step);
    match step {
        GaugeStep::IncBy(_) => RangeReading { value: n, min: r.min, max: higher(r.max, n) },
        GaugeStep::DecBy(_) => RangeReading { value: n, min: lower(r.min, n), max: r.max },
        GaugeStep::SetTo(_) => RangeReading { value: n, min: lower(r.min, n), max: higher(r.max, n) },
    }
}

/// The reading after each of `steps` in turn.
pub open spec fn run_steps(r: RangeReading, steps: Seq<GaugeStep>) -> RangeReading
    decreases steps.len(),
{
    if steps.len() == 0 {
        r
    } else {
        apply_step(run_steps(r, steps.drop_last()), steps.last())
    }
}

/// Every value the counter holds while `steps` run, the starting one first.
pub open spec fn values_held(r: RangeReading, steps: Seq<GaugeStep>) -> Seq<u64>
    decreases steps.len(),
{
    if steps.len() == 0 {
        seq![r.value]
    } else {
        values_held(r, steps.drop_last()).push(run_steps(r, steps).value)
    }
}

/// No step of `steps` wraps the counter.
pub open spec fn no_step_wraps(r: RangeReading, steps: Seq<GaugeStep>) -> bool
    decreases steps.len(),
{
    steps.len() == 0 || (no_step_wraps(r, steps.drop_last()) && !step_wraps(
        run_steps(r, steps.drop_last()).value,
        steps.last(),
    ))
}

/// The range right after a read: it starts again from the value just read.
pub open spec fn settled(value: u64) -> RangeReading {
    RangeReading { value, min: value, max: value }
}

/// A range gauge for a single owner: the value, and the lowest and highest
/// values it has held since the range was last read.
pub struct RangeTracker {
    reading: RangeReading,
}

impl View for RangeTracker {
    type V = RangeReading;

    closed spec fn view(&self) -> RangeReading {
        self.reading
    }
}

impl RangeTracker {
    /// A tracker holding `value`, whose range is that value alone.
    pub fn new(value: u64) -> (r: RangeTracker)
        ensures
            r@ == settled(value),
    {
        RangeTracker { reading: RangeReading { value, min: value, max: value } }
    }

    /// Adds `v`, returning the previous value.
    pub fn inc_by(&mut self, v: u64) -> (prev: u64)
        ensures
            prev == old(self)@.value,
            final(self)@ == apply_step(old(self)@, GaugeStep::IncBy(v)),
    {
        let prev = self.reading.value;
        let next = next_value(prev, GaugeStep::IncBy(v));
        self.reading.value = next;
        if extends_range(self.reading.max, next, true) {
            self.reading.max = next;
        }
        prev
    }

    /// Adds one, returning the previous value.
    pub fn inc(&mut self) -> (prev: u64)
        ensures
            prev == old(self)@.value,
            final(self)@ == apply_step(old(self)@, GaugeStep::IncBy(1)),
    {
        self.inc_by(1)
    }

    /// Subtracts `v`, returning the previous value.
    pub fn dec_by(&mut self, v: u64) -> (prev: u64)
        ensures
            prev == old(self)@.value,
            final(self)@ == apply_step(old(self)@, GaugeStep::DecBy(v)),
    {
        let prev = self.reading.value;
        let next = next_value(prev, GaugeStep::DecBy(v));
        self.reading.value = next;
        if extends_range(self.reading.min, next, false) {
            self.reading.min = next;
        }
        prev
    }

    /// Subtracts one, returning the previous value.
    pub fn dec(&mut self) -> (prev: u64)
        ensures
            prev == old(self)@.value,
            final(self)@ == apply_step(old(self)@, GaugeStep::DecBy(1)),
    {
        self.dec_by(1)
    }

    /// Replaces the value by `v`, returning the previous value.
    pub fn set(&mut self, v: u64) -> (prev: u64)
        ensures
            prev == old(self)@.value,
            final(self)@ == apply_step(old(self)@, GaugeStep::SetTo(v)),
    {
        let prev = self.reading.value;
        self.reading.value = v;
        if extends_range(self.reading.max, v, true) {
            self.reading.max = v;
        }
        if extends_range(self.reading.min, v, false) {
            self.reading.min = v;
        }
        prev
    }

    /// Applies one update, returning the previous value.
    pub fn apply(&mut self, step: GaugeStep) -> (prev: u64)
        ensures
            prev == old(self)@.value,
            final(self)@ == apply_step(old(self)@, step),
    {
        match step {
            GaugeStep::IncBy(v) => self.inc_by(v),
            GaugeStep::DecBy(v) => self.dec_by(v),
            GaugeStep::SetTo(v) => self.set(v),
        }
    }

    /// The current value.
    pub fn get(&self) -> (r: u64)
        ensures
            r == self@.value,
    {
        self.reading.value
    }

    /// Returns the value with the range held since the last read, and starts a
    /// new range from the current value.
    pub fn read(&mut self) -> (r: RangeReading)
        ensures
            r == old(self)@,
            final(self)@ == settled(old(self)@.value),
    {
        let r = self.reading;
        self.reading = RangeReading { value: r.value, min: r.value, max: r.value };
        r
    }
}

impl Default for RangeTracker {
    fn default() -> (r: RangeTracker)
        ensures
            r@ == settled(0),
    {
        RangeTracker::new(0)
    }
}

proof fn lemma_run_brackets(r: RangeReading, steps: Seq<GaugeStep>)
    requires
        r.min <= r.value <= r.max,
        no_step_wraps(r, steps),
    ensures
        run_steps(r, steps).min <= run_steps(r, steps).value <= run_steps(r, steps).max,
        run_steps(r, steps).min <= r.min,
        run_steps(r, steps).max >= r.max,
        values_held(r, steps).len() == steps.len() + 1,
        forall|i: int|
            0 <= i < values_held(r, steps).len() ==> run_steps(r, steps).min <= #[trigger] values_held(
                r,
                steps,
            )[i] <= run_steps(r, steps).max,
    decreases steps.len(),
{
    if steps.len() > 0 {
        let prefix = steps.drop_last();
        lemma_run_brackets(r, prefix);
        let before = run_steps(r, prefix);
        let after = run_steps(r, steps);
        let held = values_held(r, steps);
        let earlier = values_held(r, prefix);
        assert forall|i: int| 0 <= i < held.len() implies after.min <= #[trigger] held[i]
            <= after.max by {
            if i < earlier.len() {
                assert(held[i] == earlier[i]);
            }
        }
    }
}

/// Whatever updates run on a gauge whose range starts at its value (a fresh
/// gauge, or one just read), the range read afterwards holds every value the
/// gauge took meanwhile, as long as no update wraps the counter.
pub proof fn lemma_range_holds_every_value(start: u64, steps: Seq<GaugeStep>)
    requires
        no_step_wraps(settled(start), steps),
    ensures
        forall|i: int|
            0 <= i < values_held(settled(start), steps).len() ==> run_steps(
                settled(start),
                steps,
            ).min <= #[trigger] values_held(settled(start), steps)[i] <= run_steps(
                settled(start),
                steps,
            ).max,
{
    lemma_run_brackets(settled(start), steps);
}

/// A read leaves the range at the value just read, so a second read with no
/// update in between gives that value three times.
pub proof fn lemma_read_settles(r: RangeReading)
    ensures
        settled(r.value).min == r.value,
        settled(r.value).max == r.value,
        settled(settled(r.value).value) == settled(r.value),
        settled(r.value) == (RangeReading { value: r.value, min: r.value, max: r.value }),
{
}

} // verus!
