use prometheus_netapp_exporter::constants::{TARGET_JOBS, TARGET_QUOTAS};
use prometheus_netapp_exporter::exporter::{
    Exporter, FetchOutcome, FetchStep, MetricStore, ResourceKind, ResourceRecords,
};
use prometheus_netapp_exporter::jobs::{Job, JobList};
use prometheus_netapp_exporter::quotas::{
    update_quotas, Quota, QuotaList, QuotaQTree, QuotaSVM, QuotaUsage, QuotaUsagePercent,
    QuotaUser, QuotaVolume,
};
use prometheus_netapp_exporter::sample::{MetricId, Sample, SampleValue};

fn job_records(running: usize) -> ResourceRecords {
    let mut records = Vec::new();
    for i in 0..running {
        records.push(Job { uuid: format!("job-{}", i), state: "running".to_string() });
    }
    ResourceRecords::Jobs(JobList { records })
}

fn ok_step(filer: &str, records: ResourceRecords) -> FetchStep {
    FetchStep { filer: filer.to_string(), mask: TARGET_JOBS | TARGET_QUOTAS, outcome: FetchOutcome::Records(records) }
}

fn failed_step(filer: &str) -> FetchStep {
    FetchStep {
        filer: filer.to_string(),
        mask: TARGET_JOBS | TARGET_QUOTAS,
        outcome: FetchOutcome::TransportError(
            ResourceKind::Jobs,
            "connection timed out".to_string(),
        ),
    }
}

fn store_value(store: &MetricStore, id: MetricId, labels: &[&str]) -> Option<SampleValue> {
    for s in &store.entries {
        if s.id == id && s.labels == labels.iter().map(|l| l.to_string()).collect::<Vec<_>>() {
            return Some(s.value);
        }
    }
    None
}

#[test]
fn one_unreachable_target_never_spoils_the_others() {
    // Three targets; the second is unreachable. The other two end the
    // cycle with complete, correctly updated series.
    let mut ex = Exporter::new();
    let steps = vec![
        ok_step("filer1", job_records(2)),
        failed_step("filer2"),
        ok_step("filer3", job_records(5)),
    ];
    ex.update_metrics(&steps);
    assert_eq!(
        store_value(&ex.store, MetricId::ClusterJobState, &["filer1", "running"]),
        Some(SampleValue::Int(2))
    );
    assert_eq!(
        store_value(&ex.store, MetricId::ClusterJobState, &["filer3", "running"]),
        Some(SampleValue::Int(5))
    );
    assert_eq!(
        store_value(&ex.store, MetricId::ClusterJobState, &["filer2", "running"]),
        None
    );
    // The failure is observable as a scrape error counter.
    let errors = ex.error_samples();
    assert_eq!(errors.len(), 1);
    assert_eq!(errors[0].id, MetricId::ScrapeErrorsTotal);
    assert_eq!(errors[0].labels, vec!["filer2".to_string(), "jobs".to_string()]);
    assert_eq!(errors[0].value, SampleValue::Count(1));

    // The store is exactly the store of the cycle without the failure.
    let mut ex2 = Exporter::new();
    ex2.update_metrics(&vec![ok_step("filer1", job_records(2)), ok_step("filer3", job_records(5))]);
    assert_eq!(ex.store.entries, ex2.store.entries);
}

#[test]
fn failed_cycles_keep_the_last_reported_values() {
    let mut ex = Exporter::new();
    ex.update_metrics(&vec![ok_step("filer1", job_records(4))]);
    assert_eq!(
        store_value(&ex.store, MetricId::ClusterJobState, &["filer1", "running"]),
        Some(SampleValue::Int(4))
    );
    // The next cycle fails: the series keeps its stale-but-present value.
    ex.update_metrics(&vec![failed_step("filer1")]);
    assert_eq!(
        store_value(&ex.store, MetricId::ClusterJobState, &["filer1", "running"]),
        Some(SampleValue::Int(4))
    );
    // A later successful cycle replaces it.
    ex.update_metrics(&vec![ok_step("filer1", job_records(1))]);
    assert_eq!(
        store_value(&ex.store, MetricId::ClusterJobState, &["filer1", "running"]),
        Some(SampleValue::Int(1))
    );
}

#[test]
fn repeated_failures_accumulate_in_the_error_counter() {
    let mut ex = Exporter::new();
    ex.update_metrics(&vec![failed_step("filer1"), failed_step("filer1")]);
    let errors = ex.error_samples();
    assert_eq!(errors.len(), 1);
    assert_eq!(errors[0].value, SampleValue::Count(2));
}

fn quota(quota_type: &str, qtree: Option<&str>, users: Option<Vec<&str>>, total: i64) -> Quota {
    Quota {
        files: None,
        space: Some(QuotaUsage {
            hard_limit: Some(1000),
            soft_limit: None,
            used: Some(QuotaUsagePercent {
                soft_limit_percent: None,
                hard_limit_percent: Some(10),
                total,
            }),
        }),
        users: users.map(|us| us.iter().map(|u| QuotaUser { name: u.to_string() }).collect()),
        group: None,
        qtree: qtree.map(|q| QuotaQTree { name: q.to_string() }),
        quota_type: quota_type.to_string(),
        volume: QuotaVolume { name: "vol1".to_string(), uuid: "uuid-vol1".to_string() },
        svm: QuotaSVM { name: "svm1".to_string(), uuid: "uuid-svm1".to_string() },
    }
}

fn with_id(samples: &[Sample], id: MetricId) -> Vec<Sample> {
    samples.iter().filter(|s| s.id == id).cloned().collect()
}

#[test]
fn malformed_quota_record_is_skipped_without_affecting_others() {
    // The middle record declares type "user" but carries no user
    // substructure: it is skipped; the records around it are unaffected.
    let list = QuotaList {
        records: vec![
            quota("tree", Some("qt1"), None, 11),
            quota("user", Some("qt2"), None, 22),
            quota("tree", Some("qt3"), None, 33),
        ],
    };
    let samples = update_quotas(&"filer1".to_string(), &list);
    let tree_used = with_id(&samples, MetricId::TreeQuotaSpaceUsed);
    assert_eq!(tree_used.len(), 2);
    assert_eq!(tree_used[0].labels, vec!["filer1", "vol1", "qt1"]);
    assert_eq!(tree_used[0].value, SampleValue::Int(11));
    assert_eq!(tree_used[1].labels, vec!["filer1", "vol1", "qt3"]);
    assert_eq!(tree_used[1].value, SampleValue::Int(33));
    assert_eq!(with_id(&samples, MetricId::UserQuotaSpaceUsed).len(), 0);

    // The cycle equals the cycle without the malformed record.
    let list2 = QuotaList {
        records: vec![quota("tree", Some("qt1"), None, 11), quota("tree", Some("qt3"), None, 33)],
    };
    let samples2 = update_quotas(&"filer1".to_string(), &list2);
    assert_eq!(samples, samples2);
}

#[test]
fn user_quota_emits_one_series_per_user() {
    let list = QuotaList {
        records: vec![quota("user", Some("qt1"), Some(vec!["alice", "bob"]), 40)],
    };
    let samples = update_quotas(&"filer1".to_string(), &list);
    let used = with_id(&samples, MetricId::UserQuotaSpaceUsed);
    assert_eq!(used.len(), 2);
    assert_eq!(used[0].labels, vec!["filer1", "vol1", "qt1", "alice"]);
    assert_eq!(used[1].labels, vec!["filer1", "vol1", "qt1", "bob"]);
    let hard = with_id(&samples, MetricId::UserQuotaSpaceHardLimit);
    assert_eq!(hard[0].value, SampleValue::Int(1000));
    let pct = with_id(&samples, MetricId::UserQuotaSpaceHardLimitPercent);
    assert_eq!(pct[0].value, SampleValue::Int(10));
}

#[test]
fn default_tree_quota_rules_are_not_exported() {
    let list = QuotaList {
        records: vec![
            quota("tree", Some("*"), None, 5),
            quota("tree", Some(""), None, 6),
            quota("sideways", Some("qt1"), None, 7),
        ],
    };
    let samples = update_quotas(&"filer1".to_string(), &list);
    assert_eq!(samples.len(), 0);
}
