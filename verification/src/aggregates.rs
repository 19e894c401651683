use vstd::prelude::*;

use crate::arith::clip_i64;
use crate::arith::len_i64;
use crate::decode::{one_hot_samples, push_one_hot};
use crate::decode::string_eq;
use crate::sample::{
    bool_to_i64, clone_labels, gauge_sv, labels3, opt_gauge_sv, push_bool_gauge, push_gauge,
    push_opt_gauge, MetricId, Sample, SampleView,
};
use crate::storage_metrics::{
    metric_block_samples, push_metric_block, MetricBlockIds, StorageMetric, StorageStatistics,
};

verus! {

pub struct AggregateList {
    pub records: Vec<Aggregate>,
}

/// One storage aggregate as reported by the device. The `metric` and
/// `statistics` blocks exist only on newer firmware and stay optional.
pub struct Aggregate {
    pub block_storage: AggregateBlockStorage,
    pub home_node: NodeInfo,
    pub metric: Option<StorageMetric>,
    pub name: String,
    pub node: NodeInfo,
    pub snaplock_type: String,
    pub space: AggregateSpace,
    pub state: String,
    pub statistics: Option<StorageStatistics>,
    pub uuid: String,
}

pub struct AggregateBlockStorage {
    pub hybrid_cache: AggregateBlockStorageHybridCache,
    pub mirror: AggregateBlockStorageMirror,
    pub plexes: Vec<AggregateBlockStoragePlex>,
    pub primary: AggregateBlockStoragePrimary,
}

pub struct AggregateBlockStorageMirror {
    pub enabled: bool,
    pub state: Option<String>,
}

pub struct AggregateBlockStorageHybridCache {
    pub raid_type: Option<String>,
    pub used: Option<i64>,
    pub disk_count: Option<i64>,
    pub size: Option<i64>,
    pub enabled: bool,
}

pub struct AggregateBlockStoragePrimary {
    pub raid_type: String,
    pub disk_class: String,
    pub checksum_style: String,
    pub disk_type: String,
    pub disk_count: i64,
    pub raid_size: i64,
}

pub struct AggregateBlockStoragePlex {
    pub name: String,
}

pub struct NodeInfo {
    pub name: String,
    pub uuid: String,
}

pub struct AggregateSpace {
    pub block_storage: AggregateSpaceBlockStorage,
    pub cloud_storage: AggregateSpaceCloudStorage,
    pub efficiency: AggregateSpaceStorageEfficiency,
    pub efficiency_without_snapshots: AggregateSpaceStorageEfficiency,
    pub footprint: i64,
}

pub struct AggregateSpaceCloudStorage {
    pub used: i64,
}

pub struct AggregateSpaceBlockStorage {
    pub available: i64,
    pub full_threshold_percent: i64,
    pub size: i64,
    pub used: i64,
}

/// Storage-efficiency figures in bytes. The device also reports a
/// floating-point reduction ratio, which is not part of this model.
pub struct AggregateSpaceStorageEfficiency {
    pub logical_used: i64,
    pub savings: i64,
}

/// The closed vocabulary of SyncMirror states.
pub open spec fn spec_mirror_state_vocab() -> Seq<Seq<char>> {
    seq!["unmirrored"@, "normal"@, "degraded"@, "resynchronizing"@, "failed"@]
}

fn mirror_state_vocabulary() -> (v: Vec<String>)
    ensures
        v.deep_view() == spec_mirror_state_vocab(),
{
    let mut v: Vec<String> = Vec::new();
    v.push("unmirrored".to_owned());
    v.push("normal".to_owned());
    v.push("degraded".to_owned());
    v.push("resynchronizing".to_owned());
    v.push("failed".to_owned());
    proof {
        assert(v.deep_view() =~= spec_mirror_state_vocab());
    }
    v
}

/// The closed vocabulary of aggregate operational states.
pub open spec fn spec_aggr_state_vocab() -> Seq<Seq<char>> {
    seq![
        "online"@,
        "onlining"@,
        "offline"@,
        "offlining"@,
        "relocating"@,
        "unmounted"@,
        "restricted"@,
        "inconsistent"@,
        "failed"@,
        "unknown"@,
    ]
}

fn aggr_state_vocabulary() -> (v: Vec<String>)
    ensures
        v.deep_view() == spec_aggr_state_vocab(),
{
    let mut v: Vec<String> = Vec::new();
    v.push("online".to_owned());
    v.push("onlining".to_owned());
    v.push("offline".to_owned());
    v.push("offlining".to_owned());
    v.push("relocating".to_owned());
    v.push("unmounted".to_owned());
    v.push("restricted".to_owned());
    v.push("inconsistent".to_owned());
    v.push("failed".to_owned());
    v.push("unknown".to_owned());
    proof {
        assert(v.deep_view() =~= spec_aggr_state_vocab());
    }
    v
}

/// Label tuple of every aggregate series: filer, home node, aggregate.
pub open spec fn aggr_base(filer: Seq<char>, a: Aggregate) -> Seq<Seq<char>> {
    seq![filer, a.home_node.name@, a.name@]
}

/// Space figures: footprint, block storage sizes, efficiency bytes and
/// cloud-store usage, one gauge each.
pub open spec fn aggr_space_samples(base: Seq<Seq<char>>, a: Aggregate) -> Seq<SampleView> {
    seq![
        gauge_sv(MetricId::AggrFootprint, base, a.space.footprint),
        gauge_sv(MetricId::AggrBlockStorageSize, base, a.space.block_storage.size),
        gauge_sv(MetricId::AggrBlockStorageUsed, base, a.space.block_storage.used),
        gauge_sv(MetricId::AggrBlockStorageAvailable, base, a.space.block_storage.available),
        gauge_sv(
            MetricId::AggrBlockStorageFullThreshold,
            base,
            a.space.block_storage.full_threshold_percent,
        ),
        gauge_sv(MetricId::AggrEfficiencyLogicalUsed, base, a.space.efficiency.logical_used),
        gauge_sv(MetricId::AggrEfficiencySavings, base, a.space.efficiency.savings),
        gauge_sv(
            MetricId::AggrEfficiencyWoSnapshotsLogicalUsed,
            base,
            a.space.efficiency_without_snapshots.logical_used,
        ),
        gauge_sv(
            MetricId::AggrEfficiencyWoSnapshotsSavings,
            base,
            a.space.efficiency_without_snapshots.savings,
        ),
        gauge_sv(MetricId::AggrCloudStorageUsed, base, a.space.cloud_storage.used),
    ]
}

/// Block-storage layout: plex count, hybrid cache, primary tier and
/// SyncMirror state (one-hot when reported).
pub open spec fn aggr_block_samples(base: Seq<Seq<char>>, a: Aggregate) -> Seq<SampleView> {
    seq![
        gauge_sv(
            MetricId::AggrBlockStoragePlexes,
            base,
            clip_i64(a.block_storage.plexes@.len() as int),
        ),
        gauge_sv(
            MetricId::AggrHybridCacheEnabled,
            base,
            bool_to_i64(a.block_storage.hybrid_cache.enabled),
        ),
    ] + opt_gauge_sv(MetricId::AggrHybridCacheDiskUsed, base, a.block_storage.hybrid_cache.disk_count)
        + opt_gauge_sv(MetricId::AggrHybridCacheSize, base, a.block_storage.hybrid_cache.size)
        + opt_gauge_sv(MetricId::AggrHybridCacheUsed, base, a.block_storage.hybrid_cache.used)
        + seq![
        gauge_sv(MetricId::AggrPrimaryDisks, base, a.block_storage.primary.disk_count),
        gauge_sv(MetricId::AggrPrimaryRaidSize, base, a.block_storage.primary.raid_size),
        gauge_sv(MetricId::AggrMirrorEnabled, base, bool_to_i64(a.block_storage.mirror.enabled)),
    ] + (match a.block_storage.mirror.state {
        Some(s) => one_hot_samples(MetricId::AggrMirrorState, base, spec_mirror_state_vocab(), s@),
        None => Seq::empty(),
    })
}

/// The identities the aggregate performance block is published under.
pub open spec fn spec_aggr_metric_ids() -> MetricBlockIds {
    MetricBlockIds {
        duration: MetricId::AggrSampleDuration,
        throughput_read: MetricId::AggrThroughputRead,
        throughput_write: MetricId::AggrThroughputWrite,
        throughput_other: MetricId::AggrThroughputOther,
        throughput_total: MetricId::AggrThroughputTotal,
        latency_read: MetricId::AggrLatencyRead,
        latency_write: MetricId::AggrLatencyWrite,
        latency_other: MetricId::AggrLatencyOther,
        latency_total: MetricId::AggrLatencyTotal,
        iops_read: MetricId::AggrIopsRead,
        iops_write: MetricId::AggrIopsWrite,
        iops_other: MetricId::AggrIopsOther,
        iops_total: MetricId::AggrIopsTotal,
    }
}

fn aggr_metric_ids() -> (r: MetricBlockIds)
    ensures
        r == spec_aggr_metric_ids(),
{
    MetricBlockIds {
        duration: MetricId::AggrSampleDuration,
        throughput_read: MetricId::AggrThroughputRead,
        throughput_write: MetricId::AggrThroughputWrite,
        throughput_other: MetricId::AggrThroughputOther,
        throughput_total: MetricId::AggrThroughputTotal,
        latency_read: MetricId::AggrLatencyRead,
        latency_write: MetricId::AggrLatencyWrite,
        latency_other: MetricId::AggrLatencyOther,
        latency_total: MetricId::AggrLatencyTotal,
        iops_read: MetricId::AggrIopsRead,
        iops_write: MetricId::AggrIopsWrite,
        iops_other: MetricId::AggrIopsOther,
        iops_total: MetricId::AggrIopsTotal,
    }
}

/// Performance samples; a block whose status is not "ok" yields nothing
/// for this cycle.
pub open spec fn aggr_metric_samples(base: Seq<Seq<char>>, a: Aggregate) -> Seq<SampleView> {
    match a.metric {
        Some(m) => if m.status@ == "ok"@ {
            metric_block_samples(
                spec_aggr_metric_ids(),
                base,
                m.duration@,
                m.throughput,
                m.latency,
                m.iops,
            )
        } else {
            Seq::empty()
        },
        None => Seq::empty(),
    }
}

/// All samples of one aggregate record, in emission order.
pub open spec fn aggregate_record_samples(filer: Seq<char>, a: Aggregate) -> Seq<SampleView> {
    let base = aggr_base(filer, a);
    aggr_space_samples(base, a) + aggr_block_samples(base, a) + one_hot_samples(
        MetricId::AggrState,
        base,
        spec_aggr_state_vocab(),
        a.state@,
    ) + aggr_metric_samples(base, a)
}

/// All samples of a list of aggregate records, record by record. A record
/// with an unrecognized state contributes its other dimensions; nothing
/// one record reports affects another record's samples.
pub open spec fn aggregates_samples(filer: Seq<char>, recs: Seq<Aggregate>) -> Seq<SampleView>
    decreases recs.len(),
{
    if recs.len() == 0 {
        Seq::empty()
    } else {
        aggregates_samples(filer, recs.drop_last()) + aggregate_record_samples(filer, recs.last())
    }
}

fn push_aggr_space(out: &mut Vec<Sample>, base: &Vec<String>, a: &Aggregate)
    ensures
        final(out).deep_view() == old(out).deep_view() + aggr_space_samples(
            base.deep_view(),
            *a,
        ),
{
    let ghost start = out.deep_view();
    push_gauge(out, MetricId::AggrFootprint, clone_labels(base), a.space.footprint);
    push_gauge(out, MetricId::AggrBlockStorageSize, clone_labels(base), a.space.block_storage.size);
    push_gauge(out, MetricId::AggrBlockStorageUsed, clone_labels(base), a.space.block_storage.used);
    push_gauge(
        out,
        MetricId::AggrBlockStorageAvailable,
        clone_labels(base),
        a.space.block_storage.available,
    );
    push_gauge(
        out,
        MetricId::AggrBlockStorageFullThreshold,
        clone_labels(base),
        a.space.block_storage.full_threshold_percent,
    );
    push_gauge(
        out,
        MetricId::AggrEfficiencyLogicalUsed,
        clone_labels(base),
        a.space.efficiency.logical_used,
    );
    push_gauge(out, MetricId::AggrEfficiencySavings, clone_labels(base), a.space.efficiency.savings);
    push_gauge(
        out,
        MetricId::AggrEfficiencyWoSnapshotsLogicalUsed,
        clone_labels(base),
        a.space.efficiency_without_snapshots.logical_used,
    );
    push_gauge(
        out,
        MetricId::AggrEfficiencyWoSnapshotsSavings,
        clone_labels(base),
        a.space.efficiency_without_snapshots.savings,
    );
    push_gauge(out, MetricId::AggrCloudStorageUsed, clone_labels(base), a.space.cloud_storage.used);
    proof {
        assert(out.deep_view() =~= start + aggr_space_samples(base.deep_view(), *a));
    }
}

#[verifier::rlimit(50)]
fn push_aggr_block(out: &mut Vec<Sample>, base: &Vec<String>, a: &Aggregate, mirror_vocab: &Vec<String>)
    requires
        mirror_vocab.deep_view() == spec_mirror_state_vocab(),
    ensures
        final(out).deep_view() == old(out).deep_view() + aggr_block_samples(
            base.deep_view(),
            *a,
        ),
{
    let ghost start = out.deep_view();
    push_gauge(
        out,
        MetricId::AggrBlockStoragePlexes,
        clone_labels(base),
        len_i64(a.block_storage.plexes.len()),
    );
    push_bool_gauge(
        out,
        MetricId::AggrHybridCacheEnabled,
        clone_labels(base),
        a.block_storage.hybrid_cache.enabled,
    );
    push_opt_gauge(
        out,
        MetricId::AggrHybridCacheDiskUsed,
        clone_labels(base),
        &a.block_storage.hybrid_cache.disk_count,
    );
    push_opt_gauge(
        out,
        MetricId::AggrHybridCacheSize,
        clone_labels(base),
        &a.block_storage.hybrid_cache.size,
    );
    push_opt_gauge(
        out,
        MetricId::AggrHybridCacheUsed,
        clone_labels(base),
        &a.block_storage.hybrid_cache.used,
    );
    push_gauge(
        out,
        MetricId::AggrPrimaryDisks,
        clone_labels(base),
        a.block_storage.primary.disk_count,
    );
    push_gauge(
        out,
        MetricId::AggrPrimaryRaidSize,
        clone_labels(base),
        a.block_storage.primary.raid_size,
    );
    push_bool_gauge(
        out,
        MetricId::AggrMirrorEnabled,
        clone_labels(base),
        a.block_storage.mirror.enabled,
    );
    if let Some(s) = &a.block_storage.mirror.state {
        push_one_hot(out, MetricId::AggrMirrorState, base, mirror_vocab, s);
    }
    proof {
        assert(out.deep_view() =~= start + aggr_block_samples(base.deep_view(), *a));
    }
}

fn push_aggr_metric(out: &mut Vec<Sample>, base: &Vec<String>, a: &Aggregate)
    ensures
        final(out).deep_view() == old(out).deep_view() + aggr_metric_samples(
            base.deep_view(),
            *a,
        ),
{
    let ghost start = out.deep_view();
    if let Some(m) = &a.metric {
        if string_eq(&m.status, &"ok".to_owned()) {
            push_metric_block(
                out,
                aggr_metric_ids(),
                base,
                &m.duration,
                &m.throughput,
                &m.latency,
                &m.iops,
            );
        }
    }
    proof {
        assert(out.deep_view() =~= start + aggr_metric_samples(base.deep_view(), *a));
    }
}

fn push_aggregate(
    out: &mut Vec<Sample>,
    filer: &String,
    a: &Aggregate,
    mirror_vocab: &Vec<String>,
    state_vocab: &Vec<String>,
)
    requires
        mirror_vocab.deep_view() == spec_mirror_state_vocab(),
        state_vocab.deep_view() == spec_aggr_state_vocab(),
    ensures
        final(out).deep_view() == old(out).deep_view() + aggregate_record_samples(filer@, *a),
{
    let ghost start = out.deep_view();
    let base = labels3(filer, &a.home_node.name, &a.name);
    proof {
        assert(base.deep_view() == aggr_base(filer@, *a));
    }
    push_aggr_space(out, &base, a);
    push_aggr_block(out, &base, a, mirror_vocab);
    push_one_hot(out, MetricId::AggrState, &base, state_vocab, &a.state);
    push_aggr_metric(out, &base, a);
    proof {
        assert(out.deep_view() =~= start + aggregate_record_samples(filer@, *a));
    }
}

/// Decode and publish the samples of every aggregate record of one
/// storage system.
pub fn update_aggregates(filer_name: &String, list: &AggregateList) -> (samples: Vec<Sample>)
    ensures
        samples.deep_view() == aggregates_samples(filer_name@, list.records@),
{
    let mirror_vocab = mirror_state_vocabulary();
    let state_vocab = aggr_state_vocabulary();
    let mut out: Vec<Sample> = Vec::new();
    proof {
        assert(out.deep_view() =~= Seq::<SampleView>::empty());
        assert(out.deep_view() =~= aggregates_samples(filer_name@, list.records@.take(0)));
    }
    let n = list.records.len();
    let mut i: usize = 0;
    while i < n
        invariant
            i <= n,
            n == list.records@.len(),
            mirror_vocab.deep_view() == spec_mirror_state_vocab(),
            state_vocab.deep_view() == spec_aggr_state_vocab(),
            out.deep_view() == aggregates_samples(filer_name@, list.records@.take(i as int)),
        decreases n - i,
    {
        push_aggregate(&mut out, filer_name, &list.records[i], &mirror_vocab, &state_vocab);
        proof {
            assert(list.records@.take(i as int + 1).drop_last() =~= list.records@.take(i as int));
            assert(list.records@.take(i as int + 1).last() == list.records@[i as int]);
        }
        i = i + 1;
    }
    proof {
        assert(list.records@.take(n as int) =~= list.records@);
    }
    out
}

} // verus!
