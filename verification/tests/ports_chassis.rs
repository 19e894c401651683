use prometheus_netapp_exporter::chassis::{
    update_chassis, Chassis, ChassisFRU, ChassisList, ChassisNodes, ChassisShelves, ChassisUSB,
    ChassisUSBPort,
};
use prometheus_netapp_exporter::counter::CounterState;
use prometheus_netapp_exporter::ethernet::{
    update_ethernet, Port, PortList, PortNode, PortStatistics, PortStatisticsCounters,
    PortStatisticsDevice, PortStatisticsThroughputRaw,
};
use prometheus_netapp_exporter::exporter::{register_aggregate_metrics, register_job_metrics};
use prometheus_netapp_exporter::sample::{MetricId, MetricKind, Sample, SampleValue};

fn eth_port(name: &str, state: &str, port_type: &str, stats: Option<PortStatistics>) -> Port {
    Port {
        node: PortNode { name: "node1".to_string() },
        mac_address: "00:11:22:33:44:55".to_string(),
        enabled: true,
        speed: 10,
        mtu: 9000,
        name: name.to_string(),
        state: state.to_string(),
        port_type: port_type.to_string(),
        statistics: stats,
    }
}

fn stats(read: u64, write: u64, status: &str) -> PortStatistics {
    PortStatistics {
        status: status.to_string(),
        device: PortStatisticsDevice {
            receive_raw: PortStatisticsCounters { errors: 1, discards: 2, packets: 100 },
            transmit_raw: PortStatisticsCounters { errors: 3, discards: 4, packets: 200 },
            link_down_count_raw: 0,
        },
        throughput_raw: PortStatisticsThroughputRaw { read, write, total: read + write },
    }
}

fn with_id(samples: &[Sample], id: MetricId) -> Vec<Sample> {
    samples.iter().filter(|s| s.id == id).cloned().collect()
}

#[test]
fn ethernet_port_gauges_and_counters() {
    let mut counters = CounterState::new();
    let list = PortList { records: vec![eth_port("e0a", "up", "physical", Some(stats(1000, 500, "ok")))] };
    let samples = update_ethernet(&"filer1".to_string(), &list, &mut counters);

    // The speed gauge keeps the exporter's historical scaling by 1026.
    assert_eq!(with_id(&samples, MetricId::EthSpeed)[0].value, SampleValue::Int(10 * 1026));
    assert_eq!(with_id(&samples, MetricId::EthMtu)[0].value, SampleValue::Int(9000));
    assert_eq!(with_id(&samples, MetricId::EthUp)[0].value, SampleValue::Int(1));

    let types = with_id(&samples, MetricId::EthType);
    assert_eq!(types.len(), 3);
    let hot: Vec<&Sample> = types.iter().filter(|s| s.value == SampleValue::Int(1)).collect();
    assert_eq!(hot.len(), 1);
    assert_eq!(hot[0].labels[3], "physical");

    assert_eq!(with_id(&samples, MetricId::EthReceiveBytes)[0].value, SampleValue::Count(1000));
    assert_eq!(with_id(&samples, MetricId::EthTransmitBytes)[0].value, SampleValue::Count(500));
    assert_eq!(with_id(&samples, MetricId::EthReceiveDiscards)[0].value, SampleValue::Count(2));
    assert_eq!(with_id(&samples, MetricId::EthTransmitPackets)[0].value, SampleValue::Count(200));
}

#[test]
fn ethernet_counters_grow_with_the_raw_deltas() {
    let mut counters = CounterState::new();
    let list1 = PortList { records: vec![eth_port("e0a", "up", "physical", Some(stats(1000, 500, "ok")))] };
    update_ethernet(&"filer1".to_string(), &list1, &mut counters);
    let list2 = PortList { records: vec![eth_port("e0a", "up", "physical", Some(stats(1500, 800, "ok")))] };
    let samples = update_ethernet(&"filer1".to_string(), &list2, &mut counters);
    assert_eq!(with_id(&samples, MetricId::EthReceiveBytes)[0].value, SampleValue::Count(1500));
    assert_eq!(with_id(&samples, MetricId::EthTransmitBytes)[0].value, SampleValue::Count(800));
}

#[test]
fn ethernet_throughput_is_skipped_when_the_statistics_block_is_not_ok() {
    let mut counters = CounterState::new();
    let list = PortList {
        records: vec![eth_port("e0a", "up", "physical", Some(stats(1000, 500, "degraded")))],
    };
    let samples = update_ethernet(&"filer1".to_string(), &list, &mut counters);
    assert_eq!(with_id(&samples, MetricId::EthReceiveBytes).len(), 0);
    assert_eq!(with_id(&samples, MetricId::EthTransmitBytes).len(), 0);
    // The device counters are still reconciled.
    assert_eq!(with_id(&samples, MetricId::EthReceiveErrors)[0].value, SampleValue::Count(1));
}

#[test]
fn unrecognized_port_state_emits_no_up_gauge() {
    let mut counters = CounterState::new();
    let list = PortList { records: vec![eth_port("e0a", "sideways", "physical", None)] };
    let samples = update_ethernet(&"filer1".to_string(), &list, &mut counters);
    assert_eq!(with_id(&samples, MetricId::EthUp).len(), 0);
    let list2 = PortList { records: vec![eth_port("e0a", "down", "physical", None)] };
    let samples2 = update_ethernet(&"filer1".to_string(), &list2, &mut counters);
    assert_eq!(with_id(&samples2, MetricId::EthUp)[0].value, SampleValue::Int(0));
}

fn chassis(state: &str, connected: &[bool]) -> Chassis {
    Chassis {
        id: "chassis1".to_string(),
        state: state.to_string(),
        shelves: Some(vec![
            ChassisShelves { uid: "shelf1".to_string() },
            ChassisShelves { uid: "shelf2".to_string() },
        ]),
        nodes: Some(vec![ChassisNodes { uuid: "node-uuid".to_string() }]),
        frus: Some(vec![ChassisFRU {
            state: "error".to_string(),
            id: "psu1".to_string(),
            fru_type: "psu".to_string(),
        }]),
        usbs: Some(ChassisUSB {
            supported: true,
            enabled: false,
            ports: connected.iter().map(|c| ChassisUSBPort { connected: *c }).collect(),
        }),
    }
}

#[test]
fn chassis_counts_and_states() {
    let list = ChassisList { records: vec![chassis("ok", &[true, false, true])] };
    let samples = update_chassis(&"filer1".to_string(), &list);

    assert_eq!(with_id(&samples, MetricId::ChassisShelves)[0].value, SampleValue::Int(2));
    assert_eq!(with_id(&samples, MetricId::ChassisNodes)[0].value, SampleValue::Int(1));

    let states = with_id(&samples, MetricId::ChassisState);
    assert_eq!(states.len(), 2);
    assert_eq!(states[0].labels, vec!["filer1", "chassis1", "ok"]);
    assert_eq!(states[0].value, SampleValue::Int(1));
    assert_eq!(states[1].labels, vec!["filer1", "chassis1", "error"]);
    assert_eq!(states[1].value, SampleValue::Int(0));

    let fru = with_id(&samples, MetricId::ChassisFruState);
    assert_eq!(fru.len(), 2);
    assert_eq!(fru[0].labels, vec!["filer1", "chassis1", "psu1", "psu", "ok"]);
    assert_eq!(fru[0].value, SampleValue::Int(0));
    assert_eq!(fru[1].labels, vec!["filer1", "chassis1", "psu1", "psu", "error"]);
    assert_eq!(fru[1].value, SampleValue::Int(1));

    assert_eq!(with_id(&samples, MetricId::ChassisUsbSupported)[0].value, SampleValue::Int(1));
    assert_eq!(with_id(&samples, MetricId::ChassisUsbEnabled)[0].value, SampleValue::Int(0));
    let ports = with_id(&samples, MetricId::ChassisUsbPortConnected);
    assert_eq!(ports[0].labels[2], "connected");
    assert_eq!(ports[0].value, SampleValue::Int(2));
    assert_eq!(ports[1].labels[2], "disconnected");
    assert_eq!(ports[1].value, SampleValue::Int(1));
}

#[test]
fn descriptor_names_match_the_exposition_format() {
    let mut defs = Vec::new();
    register_job_metrics(&mut defs);
    assert_eq!(defs.len(), 1);
    assert_eq!(defs[0].id, MetricId::ClusterJobState);
    assert_eq!(defs[0].name, "netapp_cluster_job_state");
    assert_eq!(defs[0].labels, vec!["filer".to_string(), "state".to_string()]);
    assert_eq!(defs[0].kind, MetricKind::Gauge);

    let mut defs = Vec::new();
    register_aggregate_metrics(&mut defs);
    assert_eq!(defs.len(), 33);
    assert_eq!(defs[0].name, "netapp_aggregate_footprint_bytes");
    assert_eq!(defs[25].name, "netapp_aggregate_metric_latency_read_seconds");
    assert_eq!(defs[25].kind, MetricKind::MicrosGauge);
}
