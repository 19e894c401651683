use prometheus_netapp_exporter::counter::{CounterKey, CounterState};
use prometheus_netapp_exporter::sample::MetricId;

fn key(labels: &[&str]) -> CounterKey {
    CounterKey {
        id: MetricId::EthReceiveBytes,
        labels: labels.iter().map(|l| l.to_string()).collect(),
    }
}

#[test]
fn counter_monotonicity_with_reset_on_regression() {
    let mut state = CounterState::new();
    let published1 = state.observe(key(&["filer1", "node1", "e0a"]), 1000);
    assert_eq!(published1, 1000);
    let published2 = state.observe(key(&["filer1", "node1", "e0a"]), 1500);
    assert_eq!(published2, 1500);
    // 1200 < 1500: regression resets the published counter to 0 and the
    // new raw value becomes the baseline.
    let published3 = state.observe(key(&["filer1", "node1", "e0a"]), 1200);
    assert_eq!(published3, 0);
    // The next non-regressing sample is reported relative to 1200.
    let published4 = state.observe(key(&["filer1", "node1", "e0a"]), 1700);
    assert_eq!(published4, 500);
}

#[test]
fn first_observation_publishes_the_raw_value() {
    let mut state = CounterState::new();
    assert_eq!(state.observe(key(&["filer1", "node1", "e0a"]), 0), 0);
    assert_eq!(state.observe(key(&["filer1", "node1", "e0b"]), 7), 7);
    assert_eq!(state.observe(key(&["filer1", "node1", "e0c"]), u64::MAX), u64::MAX);
}

#[test]
fn keys_are_tracked_independently() {
    let mut state = CounterState::new();
    state.observe(key(&["filer1", "node1", "e0a"]), 1000);
    state.observe(key(&["filer2", "node1", "e0a"]), 400);
    // A regression on one port leaves the other port's state alone.
    assert_eq!(state.observe(key(&["filer1", "node1", "e0a"]), 900), 0);
    assert_eq!(state.observe(key(&["filer2", "node1", "e0a"]), 500), 500);
}

#[test]
fn same_labels_under_another_metric_are_another_key() {
    let mut state = CounterState::new();
    let rx = CounterKey {
        id: MetricId::EthReceiveBytes,
        labels: vec!["filer1".to_string(), "node1".to_string(), "e0a".to_string()],
    };
    let tx = CounterKey {
        id: MetricId::EthTransmitBytes,
        labels: vec!["filer1".to_string(), "node1".to_string(), "e0a".to_string()],
    };
    state.observe(rx, 1000);
    let tx_first = state.observe(tx, 30);
    assert_eq!(tx_first, 30);
}

#[test]
fn unchanged_raw_value_publishes_no_growth() {
    let mut state = CounterState::new();
    state.observe(key(&["filer1", "node1", "e0a"]), 1000);
    assert_eq!(state.observe(key(&["filer1", "node1", "e0a"]), 1000), 1000);
}
