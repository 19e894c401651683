use prometheus_netapp_exporter::config::{
    CifsTargets, ConfigError, Configuration, NetAppConfiguration, NfsTargets, ScrapeTargets,
};
use prometheus_netapp_exporter::config::validate_configuration;
use prometheus_netapp_exporter::constants::{
    generate_default_user_agent, resource_url, TARGET_AGGREGATES, TARGET_CHASSIS, TARGET_CIFS,
    TARGET_CIFS_CLIENT_IP, TARGET_CIFS_MAPPED_USER, TARGET_CIFS_USER, TARGET_ETHERNET,
    TARGET_FIBRECHANNEL, TARGET_JOBS, TARGET_NFS, TARGET_NFS_CLIENT_IP, TARGET_QUOTAS,
    TARGET_VOLUMES,
};
use prometheus_netapp_exporter::exporter::{enabled_resources, ResourceKind};
use prometheus_netapp_exporter::register::build_target_masks;

fn empty_targets() -> ScrapeTargets {
    ScrapeTargets {
        aggregates: None,
        chassis: None,
        ethernet: None,
        fibrechannel: None,
        jobs: None,
        quotas: None,
        volumes: None,
        cifs: None,
        nfs: None,
    }
}

fn filer(address: &str, name: &str, timeout: Option<u64>) -> NetAppConfiguration {
    NetAppConfiguration {
        address: address.to_string(),
        ca_cert: None,
        insecure_ssl: None,
        name: name.to_string(),
        timeout,
        user: "monitor".to_string(),
        password: "secret".to_string(),
        targets: None,
        targets_mask: 0,
    }
}

#[test]
fn enabling_a_resource_sets_exactly_its_bit() {
    let mut t = empty_targets();
    t.aggregates = Some(true);
    assert_eq!(build_target_masks(&t), TARGET_AGGREGATES);

    let mut t = empty_targets();
    t.volumes = Some(true);
    assert_eq!(build_target_masks(&t), TARGET_VOLUMES);

    let mut t = empty_targets();
    t.quotas = Some(true);
    assert_eq!(build_target_masks(&t), TARGET_QUOTAS);

    let mut t = empty_targets();
    t.chassis = Some(true);
    assert_eq!(build_target_masks(&t), TARGET_CHASSIS);

    let mut t = empty_targets();
    t.jobs = Some(true);
    assert_eq!(build_target_masks(&t), TARGET_JOBS);

    let mut t = empty_targets();
    t.ethernet = Some(true);
    assert_eq!(build_target_masks(&t), TARGET_ETHERNET);

    let mut t = empty_targets();
    t.fibrechannel = Some(true);
    assert_eq!(build_target_masks(&t), TARGET_FIBRECHANNEL);
}

#[test]
fn omitted_or_disabled_resources_set_no_bit() {
    assert_eq!(build_target_masks(&empty_targets()), 0);

    let mut t = empty_targets();
    t.aggregates = Some(false);
    t.volumes = Some(false);
    t.quotas = Some(false);
    t.chassis = Some(false);
    t.jobs = Some(false);
    t.ethernet = Some(false);
    t.fibrechannel = Some(false);
    assert_eq!(build_target_masks(&t), 0);
}

#[test]
fn cifs_sub_flags_are_independent_bits() {
    let mut t = empty_targets();
    t.cifs = Some(CifsTargets { mapped_user: None, user: None, client_ip: None });
    assert_eq!(build_target_masks(&t), TARGET_CIFS);

    let mut t = empty_targets();
    t.cifs = Some(CifsTargets {
        mapped_user: Some(true),
        user: Some(false),
        client_ip: Some(true),
    });
    assert_eq!(
        build_target_masks(&t),
        TARGET_CIFS | TARGET_CIFS_MAPPED_USER | TARGET_CIFS_CLIENT_IP
    );

    let mut t = empty_targets();
    t.cifs = Some(CifsTargets {
        mapped_user: Some(true),
        user: Some(true),
        client_ip: Some(true),
    });
    t.nfs = Some(NfsTargets { client_ip: Some(true) });
    assert_eq!(
        build_target_masks(&t),
        TARGET_CIFS | TARGET_CIFS_MAPPED_USER | TARGET_CIFS_USER | TARGET_CIFS_CLIENT_IP
            | TARGET_NFS | TARGET_NFS_CLIENT_IP
    );
}

#[test]
fn combined_mask_is_the_sum_of_the_bits() {
    let mut t = empty_targets();
    t.aggregates = Some(true);
    t.volumes = Some(true);
    t.jobs = Some(true);
    assert_eq!(build_target_masks(&t), TARGET_AGGREGATES | TARGET_VOLUMES | TARGET_JOBS);
}

#[test]
fn enabled_resources_follow_the_mask_in_collection_order() {
    let mask = TARGET_VOLUMES | TARGET_AGGREGATES | TARGET_NFS;
    let kinds = enabled_resources(mask);
    assert_eq!(
        kinds,
        vec![ResourceKind::Aggregates, ResourceKind::Volumes, ResourceKind::Nfs]
    );
    assert_eq!(enabled_resources(0), Vec::<ResourceKind>::new());
}

#[test]
fn validate_configuration_accepts_a_sound_config() {
    let cfg = Configuration {
        filer: vec![filer("filer1.example.net", "filer1", Some(30))],
        register: empty_targets(),
        register_mask: 0,
    };
    assert_eq!(validate_configuration(&cfg), Ok(()));
}

#[test]
fn validate_configuration_rejects_missing_address() {
    let cfg = Configuration {
        filer: vec![filer("", "filer1", None)],
        register: empty_targets(),
        register_mask: 0,
    };
    assert_eq!(validate_configuration(&cfg), Err(ConfigError::AddressNotConfigured));
}

#[test]
fn validate_configuration_rejects_missing_name() {
    let cfg = Configuration {
        filer: vec![filer("filer1.example.net", "", None)],
        register: empty_targets(),
        register_mask: 0,
    };
    assert_eq!(validate_configuration(&cfg), Err(ConfigError::NameNotConfigured));
}

#[test]
fn validate_configuration_rejects_zero_timeout() {
    let cfg = Configuration {
        filer: vec![
            filer("filer1.example.net", "filer1", None),
            filer("filer2.example.net", "filer2", Some(0)),
        ],
        register: empty_targets(),
        register_mask: 0,
    };
    assert_eq!(validate_configuration(&cfg), Err(ConfigError::IllegalTimeout));
}

#[test]
fn default_user_agent_names_the_exporter() {
    assert_eq!(
        generate_default_user_agent(),
        "prometheus-netapp-exporter/1.0.1 (https://ypbind.de/cgit/prometheus-netapp-exporter/)"
    );
}

#[test]
fn resource_urls_ask_for_every_field() {
    let address = "filer1.example.net".to_string();
    assert_eq!(
        resource_url(&address, ResourceKind::Aggregates),
        "https://filer1.example.net/api/storage/aggregates?fields=**"
    );
    assert_eq!(
        resource_url(&address, ResourceKind::Nfs),
        "https://filer1.example.net/api/protocols/nfs/connected-clients?fields=**"
    );
}
