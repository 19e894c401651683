use prometheus_netapp_exporter::cifs::{update_cifs, Cifs, CifsList, Volume};
use prometheus_netapp_exporter::counter::CounterState;
use prometheus_netapp_exporter::nfs::{update_nfs, Nfs, NfsList};
use prometheus_netapp_exporter::sample::{MetricId, Sample, SampleValue};

fn session(protocol: &str, client_ip: &str, user: &str, volumes: &[&str]) -> Cifs {
    Cifs {
        protocol: protocol.to_string(),
        smb_encryption: "encrypted".to_string(),
        continuous_availability: "available".to_string(),
        open_shares: 2,
        authentication: "kerberos".to_string(),
        volumes: volumes.iter().map(|v| Volume { name: v.to_string() }).collect(),
        smb_signing: true,
        connection_count: 3,
        user: user.to_string(),
        mapped_unix_user: user.to_string(),
        open_files: 4,
        client_ip: client_ip.to_string(),
        open_other: 1,
        large_mtu: false,
    }
}

fn with_id(samples: &[Sample], id: MetricId) -> Vec<Sample> {
    samples.iter().filter(|s| s.id == id).cloned().collect()
}

fn value_of(samples: &[Sample], id: MetricId, labels: &[&str]) -> SampleValue {
    for s in samples {
        if s.id == id && s.labels == labels.iter().map(|l| l.to_string()).collect::<Vec<_>>() {
            return s.value;
        }
    }
    panic!("no sample for the given series");
}

#[test]
fn disabled_client_ip_dimension_emits_no_client_series() {
    // 500 distinct client addresses, but the client-IP sub-flag is off.
    let mut records = Vec::new();
    for i in 0..500 {
        records.push(session("smb3", &format!("10.0.{}.{}", i / 256, i % 256), "alice", &[]));
    }
    let list = CifsList { records };
    let samples = update_cifs(&"filer1".to_string(), &list, false, false, false);
    assert_eq!(with_id(&samples, MetricId::CifsClients).len(), 0);
    assert_eq!(with_id(&samples, MetricId::CifsUser).len(), 0);
    assert_eq!(with_id(&samples, MetricId::CifsMappedUnixUser).len(), 0);
    // Aggregate totals are still correct.
    assert_eq!(
        value_of(&samples, MetricId::CifsProtocols, &["filer1", "smb3"]),
        SampleValue::Int(500)
    );
    assert_eq!(
        value_of(&samples, MetricId::CifsConnections, &["filer1"]),
        SampleValue::Int(1500)
    );
    assert_eq!(
        value_of(&samples, MetricId::CifsOpenFiles, &["filer1"]),
        SampleValue::Int(2000)
    );
}

#[test]
fn enabled_client_ip_dimension_emits_observed_clients() {
    let list = CifsList {
        records: vec![
            session("smb3", "10.0.0.1", "alice", &[]),
            session("smb3", "10.0.0.2", "bob", &[]),
            session("smb3", "10.0.0.1", "alice", &[]),
        ],
    };
    let samples = update_cifs(&"filer1".to_string(), &list, true, false, false);
    let clients = with_id(&samples, MetricId::CifsClients);
    assert_eq!(clients.len(), 2);
    assert_eq!(
        value_of(&samples, MetricId::CifsClients, &["filer1", "10.0.0.1"]),
        SampleValue::Int(2)
    );
    assert_eq!(
        value_of(&samples, MetricId::CifsClients, &["filer1", "10.0.0.2"]),
        SampleValue::Int(1)
    );
}

#[test]
fn closed_vocabularies_emit_every_member_every_cycle() {
    let list = CifsList { records: vec![session("smb3", "10.0.0.1", "alice", &[])] };
    let samples = update_cifs(&"filer1".to_string(), &list, false, false, false);
    // All five protocol members appear, absent ones at 0.
    let protocols = with_id(&samples, MetricId::CifsProtocols);
    assert_eq!(protocols.len(), 5);
    assert_eq!(
        value_of(&samples, MetricId::CifsProtocols, &["filer1", "smb1"]),
        SampleValue::Int(0)
    );
    assert_eq!(
        value_of(&samples, MetricId::CifsProtocols, &["filer1", "smb3"]),
        SampleValue::Int(1)
    );
    // An unrecognized member would be appended after the vocabulary.
    assert_eq!(protocols[0].labels[1], "smb1");
    assert_eq!(protocols[4].labels[1], "smb3_1");
}

#[test]
fn unrecognized_protocol_is_still_counted_as_its_own_series() {
    let list = CifsList { records: vec![session("smb9", "10.0.0.1", "alice", &[])] };
    let samples = update_cifs(&"filer1".to_string(), &list, false, false, false);
    let protocols = with_id(&samples, MetricId::CifsProtocols);
    assert_eq!(protocols.len(), 6);
    assert_eq!(
        value_of(&samples, MetricId::CifsProtocols, &["filer1", "smb9"]),
        SampleValue::Int(1)
    );
}

#[test]
fn volume_groups_count_sessions_per_volume() {
    let list = CifsList {
        records: vec![
            session("smb3", "10.0.0.1", "alice", &["vol1", "vol2"]),
            session("smb3", "10.0.0.2", "bob", &["vol2"]),
        ],
    };
    let samples = update_cifs(&"filer1".to_string(), &list, false, false, false);
    assert_eq!(
        value_of(&samples, MetricId::CifsVolumes, &["filer1", "vol1"]),
        SampleValue::Int(1)
    );
    assert_eq!(
        value_of(&samples, MetricId::CifsVolumes, &["filer1", "vol2"]),
        SampleValue::Int(2)
    );
    assert_eq!(
        value_of(&samples, MetricId::CifsSmbSigning, &["filer1", "on"]),
        SampleValue::Int(2)
    );
    assert_eq!(
        value_of(&samples, MetricId::CifsLargeMtu, &["filer1", "off"]),
        SampleValue::Int(2)
    );
}

fn nfs_client(protocol: &str, client_ip: &str, volume: Option<&str>, local: u64, remote: u64) -> Nfs {
    Nfs {
        protocol: protocol.to_string(),
        volume: volume.map(|v| prometheus_netapp_exporter::nfs::Volume { name: v.to_string() }),
        local_request_count: local,
        remote_request_count: remote,
        client_ip: client_ip.to_string(),
    }
}

#[test]
fn nfs_request_totals_go_through_counter_reconciliation() {
    let mut counters = CounterState::new();
    let list = NfsList {
        records: vec![
            nfs_client("nfs3", "10.0.0.1", Some("vol1"), 100, 10),
            nfs_client("nfs4", "10.0.0.2", None, 50, 5),
        ],
    };
    let samples = update_nfs(&"filer1".to_string(), &list, false, &mut counters);
    assert_eq!(
        value_of(&samples, MetricId::NfsLocalRequests, &["filer1"]),
        SampleValue::Count(150)
    );
    assert_eq!(
        value_of(&samples, MetricId::NfsRemoteRequests, &["filer1"]),
        SampleValue::Count(15)
    );
    // A later cycle with lower raw totals resets the published counters.
    let list2 = NfsList { records: vec![nfs_client("nfs3", "10.0.0.1", Some("vol1"), 40, 3)] };
    let samples2 = update_nfs(&"filer1".to_string(), &list2, false, &mut counters);
    assert_eq!(
        value_of(&samples2, MetricId::NfsLocalRequests, &["filer1"]),
        SampleValue::Count(0)
    );
    assert_eq!(
        value_of(&samples2, MetricId::NfsRemoteRequests, &["filer1"]),
        SampleValue::Count(0)
    );
}

#[test]
fn nfs_missing_volume_entry_is_skipped_without_losing_the_record() {
    let mut counters = CounterState::new();
    let list = NfsList {
        records: vec![
            nfs_client("nfs3", "10.0.0.1", None, 1, 1),
            nfs_client("nfs3", "10.0.0.2", Some("vol1"), 1, 1),
        ],
    };
    let samples = update_nfs(&"filer1".to_string(), &list, true, &mut counters);
    assert_eq!(with_id(&samples, MetricId::NfsVolumes).len(), 1);
    assert_eq!(
        value_of(&samples, MetricId::NfsProtocols, &["filer1", "nfs3"]),
        SampleValue::Int(2)
    );
    assert_eq!(with_id(&samples, MetricId::NfsClients).len(), 2);
}
