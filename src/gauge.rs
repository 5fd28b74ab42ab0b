//! A lock-free gauge that also records the lowest and highest values it held
//! since it was last read.

use std::sync::atomic::{AtomicU64, Ordering};
use std::sync::Arc;

use prometheus_client::metrics::gauge::Gauge;
use vstd::prelude::*;

use crate::range::{extends_range, next_value, GaugeStep, RangeReading};

verus! {

#[verifier::external_type_specification]
#[verifier::external_body]
#[verifier::reject_recursive_types(N)]
#[verifier::reject_recursive_types(A)]
pub struct ExGauge<N, A>(Gauge<N, A>);

/// Relies on prometheus_client's `Clone` for `Gauge`: the clone shares the
/// original's counter.
pub assume_specification<N, A>[ <Gauge<N, A> as Clone>::clone ](g: &Gauge<N, A>) -> Gauge<N, A>;

/// Relies on prometheus_client's `Gauge::default`: a new gauge at zero.
#[verifier::external_body]
fn new_gauge() -> Gauge<u64, AtomicU64> {
    Gauge::default()
}

/// Relies on prometheus_client's `Gauge::inc_by`: a relaxed `fetch_add` that
/// returns the value it replaced. Other threads may change the gauge at any
/// time, so nothing is known of the value returned.
#[verifier::external_body]
fn gauge_inc_by(g: &Gauge<u64, AtomicU64>, v: u64) -> u64 {
    g.inc_by(v)
}

/// Relies on prometheus_client's `Gauge::dec_by`: a relaxed `fetch_sub` that
/// returns the value it replaced.
#[verifier::external_body]
fn gauge_dec_by(g: &Gauge<u64, AtomicU64>, v: u64) -> u64 {
    g.dec_by(v)
}

/// Relies on prometheus_client's `Gauge::set`: a relaxed `swap` that returns
/// the value it replaced.
#[verifier::external_body]
fn gauge_set(g: &Gauge<u64, AtomicU64>, v: u64) -> u64 {
    g.set(v)
}

/// Relies on prometheus_client's `Gauge::get`: a relaxed `load`.
#[verifier::external_body]
fn gauge_get(g: &Gauge<u64, AtomicU64>) -> u64 {
    g.get()
}

/// Relies on prometheus_client's `Gauge::inner`: the atomic that holds the value.
#[verifier::external_body]
fn gauge_inner(g: &Gauge<u64, AtomicU64>) -> &AtomicU64 {
    g.inner()
}

/// How many compare-and-swap attempts an extremum update makes before it
/// settles the update with a single `fetch_max` or `fetch_min`. No run comes
/// near it; it only keeps every loop finite.
const CAS_ATTEMPTS: u64 = 0xffff_ffff_ffff_ffff;

/// A gauge metric that also records the minimum and maximum values it held
/// since it was last read.
///
/// All operations are lock-free and may run from any number of threads. Reading
/// the range (`read_range`) hands back the recorded minimum and maximum and
/// starts a new range from the value just read. The value and the two
/// extremums are three separate atomics: an update that races with a read may
/// be counted in the range read or in the next one.
///
/// Each update follows `range::apply_step` and computes with the same verified
/// steps (`next_value`, `extends_range`) as `RangeTracker`, whose contracts
/// state the behaviour exactly. The atomics themselves carry no specification
/// of the values they hold, so the methods here state none.
#[derive(Debug, Clone)]
pub struct RangeGauge {
    gauge: Gauge<u64, AtomicU64>,
    min: Arc<AtomicU64>,
    max: Arc<AtomicU64>,
}

impl RangeGauge {
    /// A gauge at zero whose range is zero alone.
    pub fn new() -> RangeGauge {
        RangeGauge {
            gauge: new_gauge(),
            min: Arc::new(AtomicU64::new(0)),
            max: Arc::new(AtomicU64::new(0)),
        }
    }

    /// Raises the recorded maximum to `candidate` unless it already reaches it,
    /// retrying with the value seen whenever another thread got there first.
    fn update_max(&self, candidate: u64) {
        let mut current = self.max.load(Ordering::Relaxed);
        let mut attempts: u64 = 0;
        while attempts < CAS_ATTEMPTS
            decreases CAS_ATTEMPTS - attempts,
        {
            if !extends_range(current, candidate, true) {
                return;
            }
            match self.max.compare_exchange(
                current,
                candidate,
                Ordering::Acquire,
                Ordering::Relaxed,
            ) {
                Ok(_) => {
                    return;
                },
                Err(seen) => {
                    current = seen;
                    attempts = attempts + 1;
                },
            }
        }
        self.max.fetch_max(candidate, Ordering::Acquire);
    }

    /// Lowers the recorded minimum to `candidate` unless it already reaches it,
    /// retrying with the value seen whenever another thread got there first.
    fn update_min(&self, candidate: u64) {
        let mut current = self.min.load(Ordering::Relaxed);
        let mut attempts: u64 = 0;
        while attempts < CAS_ATTEMPTS
            decreases CAS_ATTEMPTS - attempts,
        {
            if !extends_range(current, candidate, false) {
                return;
            }
            match self.min.compare_exchange(
                current,
                candidate,
                Ordering::Acquire,
                Ordering::Relaxed,
            ) {
                Ok(_) => {
                    return;
                },
                Err(seen) => {
                    current = seen;
                    attempts = attempts + 1;
                },
            }
        }
        self.min.fetch_min(candidate, Ordering::Acquire);
    }

    /// Increases the gauge by 1, returning the previous value.
    pub fn inc(&self) -> u64 {
        self.inc_by(1)
    }

    /// Increases the gauge by `v`, returning the previous value. The new value
    /// is computed from the one replaced, as the counter wraps it.
    pub fn inc_by(&self, v: u64) -> u64 {
        let prev = gauge_inc_by(&self.gauge, v);
        self.update_max(next_value(prev, GaugeStep::IncBy(v)));
        prev
    }

    /// Decreases the gauge by 1, returning the previous value.
    pub fn dec(&self) -> u64 {
        self.dec_by(1)
    }

    /// Decreases the gauge by `v`, returning the previous value.
    pub fn dec_by(&self, v: u64) -> u64 {
        let prev = gauge_dec_by(&self.gauge, v);
        self.update_min(next_value(prev, GaugeStep::DecBy(v)));
        prev
    }

    /// Sets the gauge to `v`, returning the previous value.
    pub fn set(&self, v: u64) -> u64 {
        let prev = gauge_set(&self.gauge, v);
        self.update_max(v);
        self.update_min(v);
        prev
    }

    /// The current value of the gauge.
    pub fn get(&self) -> u64 {
        gauge_get(&self.gauge)
    }

    /// The atomic that holds the gauge's value, for uses the gauge does not
    /// cover itself.
    pub fn inner(&self) -> &AtomicU64 {
        gauge_inner(&self.gauge)
    }

    /// Reads the value, hands back the minimum and maximum recorded since the
    /// last read, and installs the value read as both the new minimum and the
    /// new maximum.
    pub fn read_range(&self) -> RangeReading {
        let current = self.get();
        let min = self.min.swap(current, Ordering::Relaxed);
        let max = self.max.swap(current, Ordering::Relaxed);
        RangeReading { value: current, min, max }
    }
}

impl Default for RangeGauge {
    fn default() -> RangeGauge {
        RangeGauge::new()
    }
}

} // verus!
