use prometheus_netapp_exporter::counter::CounterState;
use prometheus_netapp_exporter::fibrechannel;
use prometheus_netapp_exporter::jobs::{update_jobs, Job, JobList};
use prometheus_netapp_exporter::sample::{MetricId, Sample, SampleValue};
use prometheus_netapp_exporter::volumes::{
    update_volumes, Volume, VolumeAutoSize, VolumeEfficiency, VolumeEncryption, VolumeErrorState,
    VolumeFiles, VolumeList, VolumeMovement, VolumeSnaplock, VolumeTiering,
};

fn bare_volume(name: &str, state: Option<&str>) -> Volume {
    Volume {
        name: name.to_string(),
        autosize: None,
        error_state: None,
        is_object_store: None,
        files: None,
        state: state.map(|s| s.to_string()),
        aggregates: None,
        flexcache_endpoint_type: None,
        vol_type: None,
        cloud_retrieval_policy: None,
        quota: None,
        efficiency: None,
        metric: None,
        access_time_enabled: None,
        queue_for_encryption: None,
        snaplock: None,
        movement: None,
        style: None,
        encryption: None,
        tiering: None,
    }
}

fn with_id(samples: &[Sample], id: MetricId) -> Vec<Sample> {
    samples.iter().filter(|s| s.id == id).cloned().collect()
}

#[test]
fn inactive_volume_contributes_nothing() {
    let list = VolumeList {
        records: vec![bare_volume("vol0", None), bare_volume("vol1", Some("online"))],
    };
    let samples = update_volumes(&"filer1".to_string(), &list);
    let states = with_id(&samples, MetricId::VolState);
    assert_eq!(states.len(), 4);
    assert!(states.iter().all(|s| s.labels[1] == "vol1"));
    let hot: Vec<&Sample> = states.iter().filter(|s| s.value == SampleValue::Int(1)).collect();
    assert_eq!(hot.len(), 1);
    assert_eq!(hot[0].labels[2], "online");
}

#[test]
fn absent_optional_fields_emit_no_samples() {
    let list = VolumeList { records: vec![bare_volume("vol1", Some("online"))] };
    let samples = update_volumes(&"filer1".to_string(), &list);
    assert_eq!(with_id(&samples, MetricId::VolFilesMax).len(), 0);
    assert_eq!(with_id(&samples, MetricId::VolAutosizeMode).len(), 0);
    assert_eq!(with_id(&samples, MetricId::VolTieringPolicy).len(), 0);
    // Only the state one-hot group is present.
    assert_eq!(samples.len(), 4);
}

#[test]
fn volume_sections_emit_their_samples() {
    let mut v = bare_volume("vol1", Some("online"));
    v.files = Some(VolumeFiles { maximum: 1000, used: 123 });
    v.error_state = Some(VolumeErrorState { has_bad_blocks: false, is_inconsistent: true });
    v.autosize = Some(VolumeAutoSize {
        minimum: 10,
        shrink_threshold: 50,
        maximum: 100,
        mode: "grow".to_string(),
        grow_threshold: 85,
    });
    v.is_object_store = Some(false);
    v.efficiency = Some(VolumeEfficiency {
        compression: Some("background".to_string()),
        compaction: None,
        dedupe: Some("bogus".to_string()),
        cross_volume_dedupe: None,
    });
    v.snaplock = Some(VolumeSnaplock {
        append_mode_enabled: Some(true),
        litigation_count: Some(2),
        unspecified_retention_file_count: None,
        is_audit_log: None,
        privileged_delete: Some("disabled".to_string()),
        snaplock_type: "enterprise".to_string(),
    });
    v.movement = Some(VolumeMovement {
        percent_complete: Some(40),
        cutover_window: Some(30),
        tiering_policy: None,
        state: Some("replicating".to_string()),
    });
    v.style = Some("flexvol".to_string());
    v.encryption = Some(VolumeEncryption {
        status: None,
        enc_type: Some("volume".to_string()),
        state: Some("encrypted".to_string()),
        enabled: true,
    });
    v.tiering = Some(VolumeTiering {
        policy: "snapshot_only".to_string(),
        supported: Some(true),
        min_cooling_days: Some(31),
    });
    let list = VolumeList { records: vec![v] };
    let samples = update_volumes(&"filer1".to_string(), &list);

    assert_eq!(with_id(&samples, MetricId::VolFilesMax)[0].value, SampleValue::Int(1000));
    assert_eq!(with_id(&samples, MetricId::VolFilesUsed)[0].value, SampleValue::Int(123));

    let err = with_id(&samples, MetricId::VolErrorState);
    assert_eq!(err[0].labels, vec!["filer1", "vol1", "has_bad_blocks"]);
    assert_eq!(err[0].value, SampleValue::Int(0));
    assert_eq!(err[1].labels, vec!["filer1", "vol1", "is_inconsistent"]);
    assert_eq!(err[1].value, SampleValue::Int(1));

    let modes = with_id(&samples, MetricId::VolAutosizeMode);
    assert_eq!(modes.len(), 3);
    let hot: Vec<&Sample> = modes.iter().filter(|s| s.value == SampleValue::Int(1)).collect();
    assert_eq!(hot[0].labels[2], "grow");
    assert_eq!(
        with_id(&samples, MetricId::VolAutosizeShrinkThreshold)[0].value,
        SampleValue::Int(50)
    );

    // A recognized compression state decodes one-hot; the unrecognized
    // dedupe state yields no dedupe samples at all.
    assert_eq!(with_id(&samples, MetricId::VolEfficiencyCompression).len(), 5);
    assert_eq!(with_id(&samples, MetricId::VolEfficiencyDedupe).len(), 0);
    assert_eq!(with_id(&samples, MetricId::VolEfficiencyCompaction).len(), 0);

    let snaplock_types = with_id(&samples, MetricId::VolSnaplockType);
    assert_eq!(snaplock_types.len(), 3);
    assert_eq!(
        with_id(&samples, MetricId::VolSnaplockAppendModeEnabled)[0].value,
        SampleValue::Int(1)
    );
    assert_eq!(
        with_id(&samples, MetricId::VolSnaplockLitigationCount)[0].value,
        SampleValue::Int(2)
    );
    assert_eq!(with_id(&samples, MetricId::VolSnaplockPrivilegedDelete).len(), 3);

    assert_eq!(
        with_id(&samples, MetricId::VolMovementPercentComplete)[0].value,
        SampleValue::Int(40)
    );
    assert_eq!(with_id(&samples, MetricId::VolMovementState).len(), 9);
    assert_eq!(with_id(&samples, MetricId::VolStyle).len(), 2);
    assert_eq!(with_id(&samples, MetricId::VolEncryptionType).len(), 3);
    assert_eq!(with_id(&samples, MetricId::VolEncryptionState).len(), 5);
    assert_eq!(with_id(&samples, MetricId::VolEncryptionEnabled)[0].value, SampleValue::Int(1));
    assert_eq!(with_id(&samples, MetricId::VolTieringPolicy).len(), 5);
    assert_eq!(with_id(&samples, MetricId::VolTieringSupported)[0].value, SampleValue::Int(1));
    assert_eq!(
        with_id(&samples, MetricId::VolTieringMinCoolingDays)[0].value,
        SampleValue::Int(31)
    );
}

#[test]
fn job_states_are_counted_per_state() {
    let list = JobList {
        records: vec![
            Job { uuid: "a".to_string(), state: "running".to_string() },
            Job { uuid: "b".to_string(), state: "running".to_string() },
            Job { uuid: "c".to_string(), state: "failure".to_string() },
            Job { uuid: "d".to_string(), state: "warped".to_string() },
        ],
    };
    let samples = update_jobs(&"filer1".to_string(), &list);
    assert_eq!(samples.len(), 5);
    assert_eq!(samples[0].labels, vec!["filer1", "queued"]);
    assert_eq!(samples[0].value, SampleValue::Int(0));
    assert_eq!(samples[1].labels, vec!["filer1", "running"]);
    assert_eq!(samples[1].value, SampleValue::Int(2));
    assert_eq!(samples[4].labels, vec!["filer1", "failure"]);
    assert_eq!(samples[4].value, SampleValue::Int(1));
}

fn fc_port(name: &str, state: &str, protocol: &str) -> fibrechannel::Port {
    fibrechannel::Port {
        node: fibrechannel::PortNode { name: "node1".to_string() },
        enabled: true,
        name: name.to_string(),
        state: state.to_string(),
        statistics: Some(fibrechannel::PortStatistics {
            status: "ok".to_string(),
            throughput_raw: fibrechannel::PortStatisticsThroughputRaw {
                read: 700,
                write: 300,
                total: 1000,
            },
        }),
        physical_protocol: protocol.to_string(),
    }
}

#[test]
fn fibrechannel_port_states_and_counters() {
    let mut counters = CounterState::new();
    let list = fibrechannel::PortList { records: vec![fc_port("0a", "online", "fibre_channel")] };
    let samples = fibrechannel::update_fibrechannel(&"filer1".to_string(), &list, &mut counters);

    let states = with_id(&samples, MetricId::FcState);
    assert_eq!(states.len(), 7);
    let hot: Vec<&Sample> = states.iter().filter(|s| s.value == SampleValue::Int(1)).collect();
    assert_eq!(hot.len(), 1);
    assert_eq!(hot[0].labels[3], "online");

    assert_eq!(with_id(&samples, MetricId::FcEnabled)[0].value, SampleValue::Int(1));
    assert_eq!(with_id(&samples, MetricId::FcReceiveBytes)[0].value, SampleValue::Count(700));
    assert_eq!(with_id(&samples, MetricId::FcTransmitBytes)[0].value, SampleValue::Count(300));

    let protocols = with_id(&samples, MetricId::FcPhysicalProtocol);
    assert_eq!(protocols.len(), 2);
    assert_eq!(protocols[0].labels[3], "fibre_channel");
    assert_eq!(protocols[0].value, SampleValue::Int(1));
    assert_eq!(protocols[1].value, SampleValue::Int(0));
}
