use prometheus_client::encoding::text::{encode, EncodeMetric, Encoder};
use prometheus_client::metrics::{MetricType, TypedMetric};
use prometheus_client::registry::Registry;
use telemetry_core::gauge::RangeGauge;
use telemetry_core::range::RangeReading;

struct Exposed(RangeGauge);

impl TypedMetric for Exposed {
    const TYPE: MetricType = MetricType::Gauge;
}

impl EncodeMetric for Exposed {
    fn encode(&self, mut encoder: Encoder) -> Result<(), std::io::Error> {
        let r = self.0.read_range();
        encoder
            .no_suffix()?
            .no_bucket()?
            .encode_value(r.value)?
            .no_exemplar()?;
        encoder
            .encode_suffix("min")?
            .no_bucket()?
            .encode_value(r.min)?
            .no_exemplar()?;
        encoder
            .encode_suffix("max")?
            .no_bucket()?
            .encode_value(r.max)?
            .no_exemplar()?;
        Ok(())
    }

    fn metric_type(&self) -> MetricType {
        Self::TYPE
    }
}

struct MetricValueHelper(Registry<Exposed>);

impl MetricValueHelper {
    fn new(metric: &RangeGauge) -> Self {
        let mut reg = Registry::default();
        reg.register("mygauge", "", Exposed(metric.clone()));
        Self(reg)
    }

    fn assert_values(&self, val: u64, min: u64, max: u64) {
        let mut encoded = vec![];
        encode(&mut encoded, &self.0).unwrap();
        assert_eq!(
            std::str::from_utf8(&encoded).unwrap(),
            format!(
                "\
# HELP mygauge .
# TYPE mygauge gauge
mygauge {val}
mygauge_min {min}
mygauge_max {max}
# EOF
"
            ),
        );
    }
}

#[test]
fn test_rangegauge_values() {
    let rg = RangeGauge::default();
    let helper = MetricValueHelper::new(&rg);

    helper.assert_values(0, 0, 0);
    rg.inc();
    helper.assert_values(1, 0, 1);
    // the act of observing the value should reset the min/max history
    helper.assert_values(1, 1, 1);
    rg.dec();
    helper.assert_values(0, 0, 1);
    // the act of observing the value should reset the min/max history
    helper.assert_values(0, 0, 0);
    // check that max continues to observe the highest seen value after the value goes down
    rg.inc_by(3);
    rg.dec_by(2);
    helper.assert_values(1, 0, 3);
    // change both min and max in one sample period
    rg.inc_by(1);
    rg.dec_by(2);
    helper.assert_values(0, 0, 2);
}

fn reading(value: u64, min: u64, max: u64) -> RangeReading {
    RangeReading { value, min, max }
}

#[test]
fn gauge_read_sequence_from_zero() {
    let g = RangeGauge::new();
    assert_eq!(g.inc(), 0);
    assert_eq!(g.get(), 1);
    assert_eq!(g.read_range(), reading(1, 0, 1));
    assert_eq!(g.read_range(), reading(1, 1, 1));
    assert_eq!(g.dec(), 1);
    assert_eq!(g.read_range(), reading(0, 0, 1));
    assert_eq!(g.read_range(), reading(0, 0, 0));
    g.inc_by(3);
    g.dec_by(2);
    assert_eq!(g.read_range(), reading(1, 0, 3));
    g.inc_by(1);
    g.dec_by(2);
    assert_eq!(g.read_range(), reading(0, 0, 2));
}

#[test]
fn gauge_operations_return_previous_value() {
    let g = RangeGauge::default();
    assert_eq!(g.inc_by(5), 0);
    assert_eq!(g.dec_by(2), 5);
    assert_eq!(g.set(10), 3);
    assert_eq!(g.get(), 10);
    assert_eq!(g.dec(), 10);
    assert_eq!(g.get(), 9);
}

#[test]
fn gauge_set_moves_both_ends() {
    let g = RangeGauge::new();
    g.set(7);
    g.set(2);
    g.set(4);
    assert_eq!(g.read_range(), reading(4, 0, 7));
    g.set(9);
    g.set(1);
    g.set(5);
    assert_eq!(g.read_range(), reading(5, 1, 9));
    assert_eq!(g.read_range(), reading(5, 5, 5));
}

#[test]
fn gauge_clones_share_state() {
    let g = RangeGauge::new();
    let h = g.clone();
    h.inc_by(4);
    assert_eq!(g.get(), 4);
    assert_eq!(g.read_range(), reading(4, 0, 4));
    assert_eq!(h.read_range(), reading(4, 4, 4));
}

#[test]
fn gauge_inner_is_the_value() {
    let g = RangeGauge::new();
    g.inc_by(6);
    assert_eq!(g.inner().load(std::sync::atomic::Ordering::Relaxed), 6);
}

#[test]
fn gauge_decrement_below_zero_wraps() {
    let g = RangeGauge::new();
    assert_eq!(g.dec(), 0);
    assert_eq!(g.get(), u64::MAX);
    assert_eq!(g.read_range(), reading(u64::MAX, 0, 0));
}

#[test]
fn gauge_many_increments_reach_total() {
    let g = RangeGauge::new();
    let handles: Vec<RangeGauge> = (0..4).map(|_| g.clone()).collect();
    for h in &handles {
        for _ in 0..1000 {
            h.inc();
        }
    }
    let r = g.read_range();
    assert_eq!(r.value, 4000);
    assert_eq!(r.max, 4000);
    assert_eq!(r.min, 0);
}
