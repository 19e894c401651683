use prometheus_netapp_exporter::aggregates::{
    Aggregate, AggregateBlockStorage, AggregateBlockStorageHybridCache,
    AggregateBlockStorageMirror, AggregateBlockStoragePrimary, AggregateList, AggregateSpace,
    AggregateSpaceBlockStorage, AggregateSpaceCloudStorage, AggregateSpaceStorageEfficiency,
    NodeInfo, update_aggregates,
};
use prometheus_netapp_exporter::sample::{MetricId, Sample, SampleValue};
use prometheus_netapp_exporter::storage_metrics::duration_seconds;

fn aggregate(name: &str, state: &str, mirror_state: Option<&str>) -> Aggregate {
    Aggregate {
        block_storage: AggregateBlockStorage {
            hybrid_cache: AggregateBlockStorageHybridCache {
                raid_type: None,
                used: Some(11),
                disk_count: Some(2),
                size: Some(1024),
                enabled: true,
            },
            mirror: AggregateBlockStorageMirror {
                enabled: false,
                state: mirror_state.map(|s| s.to_string()),
            },
            plexes: Vec::new(),
            primary: AggregateBlockStoragePrimary {
                raid_type: "raid_dp".to_string(),
                disk_class: "performance".to_string(),
                checksum_style: "block".to_string(),
                disk_type: "ssd".to_string(),
                disk_count: 24,
                raid_size: 24,
            },
        },
        home_node: NodeInfo { name: "node1".to_string(), uuid: "uuid-node1".to_string() },
        metric: None,
        name: name.to_string(),
        node: NodeInfo { name: "node1".to_string(), uuid: "uuid-node1".to_string() },
        snaplock_type: "non_snaplock".to_string(),
        space: AggregateSpace {
            block_storage: AggregateSpaceBlockStorage {
                available: 500,
                full_threshold_percent: 95,
                size: 1000,
                used: 500,
            },
            cloud_storage: AggregateSpaceCloudStorage { used: 0 },
            efficiency: AggregateSpaceStorageEfficiency { logical_used: 10, savings: 5 },
            efficiency_without_snapshots: AggregateSpaceStorageEfficiency {
                logical_used: 8,
                savings: 4,
            },
            footprint: 77,
        },
        state: state.to_string(),
        statistics: None,
        uuid: "uuid-aggr".to_string(),
    }
}

fn with_id(samples: &[Sample], id: MetricId) -> Vec<Sample> {
    samples.iter().filter(|s| s.id == id).cloned().collect()
}

#[test]
fn recognized_state_decodes_one_hot() {
    let list = AggregateList { records: vec![aggregate("aggr1", "offline", None)] };
    let samples = update_aggregates(&"filer1".to_string(), &list);
    let state_samples = with_id(&samples, MetricId::AggrState);
    // One sample per vocabulary member.
    assert_eq!(state_samples.len(), 10);
    let mut ones: usize = 0;
    let mut zeros: usize = 0;
    for s in &state_samples {
        assert_eq!(s.labels.len(), 4);
        assert_eq!(s.labels[0], "filer1");
        assert_eq!(s.labels[1], "node1");
        assert_eq!(s.labels[2], "aggr1");
        match s.value {
            SampleValue::Int(1) => {
                ones += 1;
                assert_eq!(s.labels[3], "offline");
            },
            SampleValue::Int(0) => {
                zeros += 1;
            },
            _ => panic!("unexpected state sample value"),
        }
    }
    // Exactly one member is hot; the values sum to 1.
    assert_eq!(ones, 1);
    assert_eq!(zeros, 9);
}

#[test]
fn unrecognized_state_produces_no_state_samples() {
    let list = AggregateList { records: vec![aggregate("aggr1", "sideways", None)] };
    let samples = update_aggregates(&"filer1".to_string(), &list);
    assert_eq!(with_id(&samples, MetricId::AggrState).len(), 0);
    // Every other dimension of the record is still emitted.
    let footprint = with_id(&samples, MetricId::AggrFootprint);
    assert_eq!(footprint.len(), 1);
    assert_eq!(footprint[0].value, SampleValue::Int(77));
}

#[test]
fn unrecognized_mirror_state_skips_only_that_dimension() {
    let list = AggregateList { records: vec![aggregate("aggr1", "online", Some("upside_down"))] };
    let samples = update_aggregates(&"filer1".to_string(), &list);
    assert_eq!(with_id(&samples, MetricId::AggrMirrorState).len(), 0);
    // The aggregate state one-hot group is unaffected.
    assert_eq!(with_id(&samples, MetricId::AggrState).len(), 10);
}

#[test]
fn recognized_mirror_state_decodes_one_hot() {
    let list = AggregateList { records: vec![aggregate("aggr1", "online", Some("degraded"))] };
    let samples = update_aggregates(&"filer1".to_string(), &list);
    let mirror = with_id(&samples, MetricId::AggrMirrorState);
    assert_eq!(mirror.len(), 5);
    let hot: Vec<&Sample> =
        mirror.iter().filter(|s| s.value == SampleValue::Int(1)).collect();
    assert_eq!(hot.len(), 1);
    assert_eq!(hot[0].labels[3], "degraded");
}

#[test]
fn space_figures_are_exported_as_plain_gauges() {
    let list = AggregateList { records: vec![aggregate("aggr1", "online", None)] };
    let samples = update_aggregates(&"filer1".to_string(), &list);
    assert_eq!(
        with_id(&samples, MetricId::AggrBlockStorageSize)[0].value,
        SampleValue::Int(1000)
    );
    assert_eq!(
        with_id(&samples, MetricId::AggrBlockStorageAvailable)[0].value,
        SampleValue::Int(500)
    );
    assert_eq!(with_id(&samples, MetricId::AggrHybridCacheSize)[0].value, SampleValue::Int(1024));
    assert_eq!(with_id(&samples, MetricId::AggrHybridCacheEnabled)[0].value, SampleValue::Int(1));
    assert_eq!(with_id(&samples, MetricId::AggrBlockStoragePlexes)[0].value, SampleValue::Int(0));
}

#[test]
fn two_records_emit_in_order_and_independently() {
    let list = AggregateList {
        records: vec![aggregate("aggr1", "bogus", None), aggregate("aggr2", "online", None)],
    };
    let samples = update_aggregates(&"filer1".to_string(), &list);
    // The malformed state of the first record does not suppress the
    // second record's state group.
    let states = with_id(&samples, MetricId::AggrState);
    assert_eq!(states.len(), 10);
    assert!(states.iter().all(|s| s.labels[2] == "aggr2"));
}

#[test]
fn sample_durations_decode_to_seconds() {
    assert_eq!(duration_seconds(&"PT15S".to_string()), Some(15));
    assert_eq!(duration_seconds(&"PT1D".to_string()), Some(86400));
    assert_eq!(duration_seconds(&"PT2H".to_string()), Some(7200));
    assert_eq!(duration_seconds(&"PT30M".to_string()), Some(1800));
    assert_eq!(duration_seconds(&"PT4M".to_string()), Some(240));
    assert_eq!(duration_seconds(&"PT5M".to_string()), Some(300));
    assert_eq!(duration_seconds(&"PT99X".to_string()), None);
}
