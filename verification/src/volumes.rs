use vstd::prelude::*;

use crate::arith::clip_i64;
use crate::arith::len_i64;
use crate::decode::{one_hot_samples, push_one_hot};
use crate::decode::string_eq;
use crate::sample::{
    bool_to_i64, clone_labels, gauge_sv, labels2, opt_bool_gauge_sv, opt_gauge_sv, push_bool_gauge,
    push_gauge, push_micros, push_opt_bool_gauge, push_opt_gauge, micros_sv, MetricId, Sample,
    SampleView,
};
use crate::storage_metrics::{
    duration_seconds, metric_block_samples, push_metric_block, spec_duration_seconds,
    MetricBlockIds, StorageMetric, StorageMetricCloud, StorageMetricFlexCache,
};

verus! {

pub struct VolumeList {
    pub records: Vec<Volume>,
}

/// One volume as reported by the device. Fields are absent when the
/// volume lives on another node of a MetroCluster or when the firmware
/// predates them; absence is never treated as a zero or false value.
pub struct Volume {
    pub name: String,
    pub autosize: Option<VolumeAutoSize>,
    pub error_state: Option<VolumeErrorState>,
    pub is_object_store: Option<bool>,
    pub files: Option<VolumeFiles>,
    pub state: Option<String>,
    pub aggregates: Option<Vec<AggregateList>>,
    pub flexcache_endpoint_type: Option<String>,
    pub vol_type: Option<String>,
    pub cloud_retrieval_policy: Option<String>,
    pub quota: Option<VolumeQuota>,
    pub efficiency: Option<VolumeEfficiency>,
    pub metric: Option<StorageMetric>,
    pub access_time_enabled: Option<bool>,
    pub queue_for_encryption: Option<bool>,
    pub snaplock: Option<VolumeSnaplock>,
    pub movement: Option<VolumeMovement>,
    pub style: Option<String>,
    pub encryption: Option<VolumeEncryption>,
    pub tiering: Option<VolumeTiering>,
}

pub struct VolumeTiering {
    pub policy: String,
    pub supported: Option<bool>,
    pub min_cooling_days: Option<i64>,
}

pub struct VolumeEncryption {
    pub status: Option<VolumeEncryptionStatus>,
    pub enc_type: Option<String>,
    pub state: Option<String>,
    pub enabled: bool,
}

pub struct VolumeEncryptionStatus {
    pub message: Option<String>,
    pub key_id: Option<String>,
}

pub struct VolumeMovement {
    pub percent_complete: Option<i64>,
    pub cutover_window: Option<i64>,
    pub tiering_policy: Option<String>,
    pub state: Option<String>,
}

pub struct VolumeSnaplock {
    pub append_mode_enabled: Option<bool>,
    pub litigation_count: Option<i64>,
    pub unspecified_retention_file_count: Option<i64>,
    pub is_audit_log: Option<bool>,
    pub privileged_delete: Option<String>,
    pub snaplock_type: String,
}

pub struct VolumeEfficiency {
    pub compression: Option<String>,
    pub compaction: Option<String>,
    pub dedupe: Option<String>,
    pub cross_volume_dedupe: Option<String>,
}

pub struct VolumeQuota {
    pub state: String,
}

/// A hosting aggregate reference inside a volume record.
pub struct AggregateList {
    pub name: String,
}

pub struct VolumeAutoSize {
    pub minimum: i64,
    pub shrink_threshold: i64,
    pub maximum: i64,
    pub mode: String,
    pub grow_threshold: i64,
}

pub struct VolumeErrorState {
    pub has_bad_blocks: bool,
    pub is_inconsistent: bool,
}

pub struct VolumeFiles {
    pub maximum: i64,
    pub used: i64,
}

// ---- closed vocabularies ----

pub open spec fn spec_vol_state_vocab() -> Seq<Seq<char>> {
    seq!["error"@, "mixed"@, "online"@, "offline"@]
}

pub open spec fn spec_autosize_mode_vocab() -> Seq<Seq<char>> {
    seq!["grow"@, "grow_shrink"@, "off"@]
}

pub open spec fn spec_flexcache_endpoint_vocab() -> Seq<Seq<char>> {
    seq!["none"@, "cache"@, "origin"@]
}

pub open spec fn spec_vol_type_vocab() -> Seq<Seq<char>> {
    seq!["rw"@, "dp"@, "ls"@]
}

pub open spec fn spec_cloud_retrieval_vocab() -> Seq<Seq<char>> {
    seq!["default"@, "on_read"@, "never"@, "promote"@]
}

pub open spec fn spec_quota_state_vocab() -> Seq<Seq<char>> {
    seq!["corrupt"@, "initializing"@, "mixed"@, "off"@, "on"@, "resizing"@]
}

pub open spec fn spec_efficiency_vocab() -> Seq<Seq<char>> {
    seq!["inline"@, "background"@, "both"@, "none"@, "mixed"@]
}

pub open spec fn spec_compaction_vocab() -> Seq<Seq<char>> {
    seq!["inline"@, "none"@, "mixed"@]
}

pub open spec fn spec_snaplock_type_vocab() -> Seq<Seq<char>> {
    seq!["compliance"@, "enterprise"@, "non_snaplock"@]
}

pub open spec fn spec_privileged_delete_vocab() -> Seq<Seq<char>> {
    seq!["disabled"@, "enabled"@, "permanently_disabled"@]
}

pub open spec fn spec_tiering_policy_vocab() -> Seq<Seq<char>> {
    seq!["all"@, "auto"@, "backup"@, "none"@, "snapshot_only"@]
}

pub open spec fn spec_movement_state_vocab() -> Seq<Seq<char>> {
    seq![
        "aborted"@,
        "cutover"@,
        "cutover_wait"@,
        "cutover_pending"@,
        "failed"@,
        "paused"@,
        "queued"@,
        "replicating"@,
        "success"@,
    ]
}

pub open spec fn spec_style_vocab() -> Seq<Seq<char>> {
    seq!["flexvol"@, "flexgroup"@]
}

pub open spec fn spec_enc_type_vocab() -> Seq<Seq<char>> {
    seq!["none"@, "volume"@, "aggregate"@]
}

pub open spec fn spec_enc_state_vocab() -> Seq<Seq<char>> {
    seq!["encrypted"@, "encrypting"@, "partial"@, "rekeying"@, "unencrypted"@]
}

/// The vocabularies the volume collector decodes against, built once per
/// cycle.
pub struct VolumeVocabularies {
    pub state: Vec<String>,
    pub autosize_mode: Vec<String>,
    pub flexcache_endpoint: Vec<String>,
    pub vol_type: Vec<String>,
    pub cloud_retrieval: Vec<String>,
    pub quota_state: Vec<String>,
    pub efficiency: Vec<String>,
    pub compaction: Vec<String>,
    pub snaplock_type: Vec<String>,
    pub privileged_delete: Vec<String>,
    pub tiering_policy: Vec<String>,
    pub movement_state: Vec<String>,
    pub style: Vec<String>,
    pub enc_type: Vec<String>,
    pub enc_state: Vec<String>,
}

impl VolumeVocabularies {
    pub open spec fn wf(self) -> bool {
        &&& self.state.deep_view() == spec_vol_state_vocab()
        &&& self.autosize_mode.deep_view() == spec_autosize_mode_vocab()
        &&& self.flexcache_endpoint.deep_view() == spec_flexcache_endpoint_vocab()
        &&& self.vol_type.deep_view() == spec_vol_type_vocab()
        &&& self.cloud_retrieval.deep_view() == spec_cloud_retrieval_vocab()
        &&& self.quota_state.deep_view() == spec_quota_state_vocab()
        &&& self.efficiency.deep_view() == spec_efficiency_vocab()
        &&& self.compaction.deep_view() == spec_compaction_vocab()
        &&& self.snaplock_type.deep_view() == spec_snaplock_type_vocab()
        &&& self.privileged_delete.deep_view() == spec_privileged_delete_vocab()
        &&& self.tiering_policy.deep_view() == spec_tiering_policy_vocab()
        &&& self.movement_state.deep_view() == spec_movement_state_vocab()
        &&& self.style.deep_view() == spec_style_vocab()
        &&& self.enc_type.deep_view() == spec_enc_type_vocab()
        &&& self.enc_state.deep_view() == spec_enc_state_vocab()
    }

    pub fn build() -> (v: Self)
        ensures
            v.wf(),
    {
        let mut state: Vec<String> = Vec::new();
        state.push("error".to_owned());
        state.push("mixed".to_owned());
        state.push("online".to_owned());
        state.push("offline".to_owned());
        proof {
            assert(state.deep_view() =~= spec_vol_state_vocab());
        }
        let mut autosize_mode: Vec<String> = Vec::new();
        autosize_mode.push("grow".to_owned());
        autosize_mode.push("grow_shrink".to_owned());
        autosize_mode.push("off".to_owned());
        proof {
            assert(autosize_mode.deep_view() =~= spec_autosize_mode_vocab());
        }
        let mut flexcache_endpoint: Vec<String> = Vec::new();
        flexcache_endpoint.push("none".to_owned());
        flexcache_endpoint.push("cache".to_owned());
        flexcache_endpoint.push("origin".to_owned());
        proof {
            assert(flexcache_endpoint.deep_view() =~= spec_flexcache_endpoint_vocab());
        }
        let mut vol_type: Vec<String> = Vec::new();
        vol_type.push("rw".to_owned());
        vol_type.push("dp".to_owned());
        vol_type.push("ls".to_owned());
        proof {
            assert(vol_type.deep_view() =~= spec_vol_type_vocab());
        }
        let mut cloud_retrieval: Vec<String> = Vec::new();
        cloud_retrieval.push("default".to_owned());
        cloud_retrieval.push("on_read".to_owned());
        cloud_retrieval.push("never".to_owned());
        cloud_retrieval.push("promote".to_owned());
        proof {
            assert(cloud_retrieval.deep_view() =~= spec_cloud_retrieval_vocab());
        }
        let mut quota_state: Vec<String> = Vec::new();
        quota_state.push("corrupt".to_owned());
        quota_state.push("initializing".to_owned());
        quota_state.push("mixed".to_owned());
        quota_state.push("off".to_owned());
        quota_state.push("on".to_owned());
        quota_state.push("resizing".to_owned());
        proof {
            assert(quota_state.deep_view() =~= spec_quota_state_vocab());
        }
        let mut efficiency: Vec<String> = Vec::new();
        efficiency.push("inline".to_owned());
        efficiency.push("background".to_owned());
        efficiency.push("both".to_owned());
        efficiency.push("none".to_owned());
        efficiency.push("mixed".to_owned());
        proof {
            assert(efficiency.deep_view() =~= spec_efficiency_vocab());
        }
        let mut compaction: Vec<String> = Vec::new();
        compaction.push("inline".to_owned());
        compaction.push("none".to_owned());
        compaction.push("mixed".to_owned());
        proof {
            assert(compaction.deep_view() =~= spec_compaction_vocab());
        }
        let mut snaplock_type: Vec<String> = Vec::new();
        snaplock_type.push("compliance".to_owned());
        snaplock_type.push("enterprise".to_owned());
        snaplock_type.push("non_snaplock".to_owned());
        proof {
            assert(snaplock_type.deep_view() =~= spec_snaplock_type_vocab());
        }
        let mut privileged_delete: Vec<String> = Vec::new();
        privileged_delete.push("disabled".to_owned());
        privileged_delete.push("enabled".to_owned());
        privileged_delete.push("permanently_disabled".to_owned());
        proof {
            assert(privileged_delete.deep_view() =~= spec_privileged_delete_vocab());
        }
        let mut tiering_policy: Vec<String> = Vec::new();
        tiering_policy.push("all".to_owned());
        tiering_policy.push("auto".to_owned());
        tiering_policy.push("backup".to_owned());
        tiering_policy.push("none".to_owned());
        tiering_policy.push("snapshot_only".to_owned());
        proof {
            assert(tiering_policy.deep_view() =~= spec_tiering_policy_vocab());
        }
        let mut movement_state: Vec<String> = Vec::new();
        movement_state.push("aborted".to_owned());
        movement_state.push("cutover".to_owned());
        movement_state.push("cutover_wait".to_owned());
        movement_state.push("cutover_pending".to_owned());
        movement_state.push("failed".to_owned());
        movement_state.push("paused".to_owned());
        movement_state.push("queued".to_owned());
        movement_state.push("replicating".to_owned());
        movement_state.push("success".to_owned());
        proof {
            assert(movement_state.deep_view() =~= spec_movement_state_vocab());
        }
        let mut style: Vec<String> = Vec::new();
        style.push("flexvol".to_owned());
        style.push("flexgroup".to_owned());
        proof {
            assert(style.deep_view() =~= spec_style_vocab());
        }
        let mut enc_type: Vec<String> = Vec::new();
        enc_type.push("none".to_owned());
        enc_type.push("volume".to_owned());
        enc_type.push("aggregate".to_owned());
        proof {
            assert(enc_type.deep_view() =~= spec_enc_type_vocab());
        }
        let mut enc_state: Vec<String> = Vec::new();
        enc_state.push("encrypted".to_owned());
        enc_state.push("encrypting".to_owned());
        enc_state.push("partial".to_owned());
        enc_state.push("rekeying".to_owned());
        enc_state.push("unencrypted".to_owned());
        proof {
            assert(enc_state.deep_view() =~= spec_enc_state_vocab());
        }
        VolumeVocabularies {
            state,
            autosize_mode,
            flexcache_endpoint,
            vol_type,
            cloud_retrieval,
            quota_state,
            efficiency,
            compaction,
            snaplock_type,
            privileged_delete,
            tiering_policy,
            movement_state,
            style,
            enc_type,
            enc_state,
        }
    }
}

/// Label tuple of every volume series: filer, volume.
pub open spec fn vol_base(filer: Seq<char>, v: Volume) -> Seq<Seq<char>> {
    seq![filer, v.name@]
}

// ---- sections ----

/// Files, error state, autosize, object-store flag and hosting-aggregate
/// count.
pub open spec fn vol_basic_samples(base: Seq<Seq<char>>, v: Volume) -> Seq<SampleView> {
    (match v.files {
        Some(f) => seq![
            gauge_sv(MetricId::VolFilesMax, base, f.maximum),
            gauge_sv(MetricId::VolFilesUsed, base, f.used),
        ],
        None => Seq::empty(),
    }) + (match v.error_state {
        Some(e) => seq![
            gauge_sv(MetricId::VolErrorState, base.push("has_bad_blocks"@), bool_to_i64(e.has_bad_blocks)),
            gauge_sv(
                MetricId::VolErrorState,
                base.push("is_inconsistent"@),
                bool_to_i64(e.is_inconsistent),
            ),
        ],
        None => Seq::empty(),
    }) + (match v.autosize {
        Some(a) => seq![
            gauge_sv(MetricId::VolAutosizeMin, base, a.minimum),
            gauge_sv(MetricId::VolAutosizeMax, base, a.maximum),
        ] + one_hot_samples(MetricId::VolAutosizeMode, base, spec_autosize_mode_vocab(), a.mode@)
            + seq![
            gauge_sv(MetricId::VolAutosizeShrinkThreshold, base, a.shrink_threshold),
            gauge_sv(MetricId::VolAutosizeGrowThreshold, base, a.grow_threshold),
        ],
        None => Seq::empty(),
    }) + (match v.is_object_store {
        Some(b) => seq![gauge_sv(MetricId::VolIsObjectStore, base, bool_to_i64(b))],
        None => Seq::empty(),
    }) + (match v.aggregates {
        Some(aggrs) => seq![
            gauge_sv(MetricId::VolNumberOfAggregates, base, clip_i64(aggrs@.len() as int)),
        ],
        None => Seq::empty(),
    })
}

/// Endpoint type, volume type, cloud retrieval policy and quota state,
/// each decoded one-hot against its closed vocabulary.
pub open spec fn vol_class_samples(base: Seq<Seq<char>>, v: Volume) -> Seq<SampleView> {
    (match v.flexcache_endpoint_type {
        Some(s) => one_hot_samples(
            MetricId::VolFlexCacheEndpointType,
            base,
            spec_flexcache_endpoint_vocab(),
            s@,
        ),
        None => Seq::empty(),
    }) + (match v.vol_type {
        Some(s) => one_hot_samples(MetricId::VolType, base, spec_vol_type_vocab(), s@),
        None => Seq::empty(),
    }) + (match v.cloud_retrieval_policy {
        Some(s) => one_hot_samples(
            MetricId::VolCloudRetrievalPolicy,
            base,
            spec_cloud_retrieval_vocab(),
            s@,
        ),
        None => Seq::empty(),
    }) + (match v.quota {
        Some(q) => one_hot_samples(MetricId::VolQuotaState, base, spec_quota_state_vocab(), q.state@),
        None => Seq::empty(),
    })
}

/// Efficiency feature states, each decoded one-hot.
pub open spec fn vol_efficiency_samples(base: Seq<Seq<char>>, v: Volume) -> Seq<SampleView> {
    match v.efficiency {
        Some(e) => (match e.compression {
            Some(c) => one_hot_samples(
                MetricId::VolEfficiencyCompression,
                base,
                spec_efficiency_vocab(),
                c@,
            ),
            None => Seq::empty(),
        }) + (match e.compaction {
            Some(c) => one_hot_samples(
                MetricId::VolEfficiencyCompaction,
                base,
                spec_compaction_vocab(),
                c@,
            ),
            None => Seq::empty(),
        }) + (match e.dedupe {
            Some(d) => one_hot_samples(MetricId::VolEfficiencyDedupe, base, spec_efficiency_vocab(), d@),
            None => Seq::empty(),
        }) + (match e.cross_volume_dedupe {
            Some(d) => one_hot_samples(
                MetricId::VolEfficiencyCrossVolumeDedupe,
                base,
                spec_efficiency_vocab(),
                d@,
            ),
            None => Seq::empty(),
        }),
        None => Seq::empty(),
    }
}

/// The identities the volume performance block is published under.
pub open spec fn spec_vol_metric_ids() -> MetricBlockIds {
    MetricBlockIds {
        duration: MetricId::VolSampleDuration,
        throughput_read: MetricId::VolThroughputRead,
        throughput_write: MetricId::VolThroughputWrite,
        throughput_other: MetricId::VolThroughputOther,
        throughput_total: MetricId::VolThroughputTotal,
        latency_read: MetricId::VolLatencyRead,
        latency_write: MetricId::VolLatencyWrite,
        latency_other: MetricId::VolLatencyOther,
        latency_total: MetricId::VolLatencyTotal,
        iops_read: MetricId::VolIopsRead,
        iops_write: MetricId::VolIopsWrite,
        iops_other: MetricId::VolIopsOther,
        iops_total: MetricId::VolIopsTotal,
    }
}

fn vol_metric_ids() -> (r: MetricBlockIds)
    ensures
        r == spec_vol_metric_ids(),
{
    MetricBlockIds {
        duration: MetricId::VolSampleDuration,
        throughput_read: MetricId::VolThroughputRead,
        throughput_write: MetricId::VolThroughputWrite,
        throughput_other: MetricId::VolThroughputOther,
        throughput_total: MetricId::VolThroughputTotal,
        latency_read: MetricId::VolLatencyRead,
        latency_write: MetricId::VolLatencyWrite,
        latency_other: MetricId::VolLatencyOther,
        latency_total: MetricId::VolLatencyTotal,
        iops_read: MetricId::VolIopsRead,
        iops_write: MetricId::VolIopsWrite,
        iops_other: MetricId::VolIopsOther,
        iops_total: MetricId::VolIopsTotal,
    }
}

/// Cloud-tier performance samples: duration, latencies in seconds, then
/// operation rates; skipped entirely unless the block's status is "ok".
pub open spec fn vol_cloud_samples(base: Seq<Seq<char>>, c: StorageMetricCloud) -> Seq<
    SampleView,
> {
    if c.status@ == "ok"@ {
        opt_gauge_sv(MetricId::VolCloudSampleDuration, base, spec_duration_seconds(c.duration@))
            + seq![
            micros_sv(MetricId::VolCloudLatencyRead, base, c.latency.read),
            micros_sv(MetricId::VolCloudLatencyWrite, base, c.latency.write),
            micros_sv(MetricId::VolCloudLatencyOther, base, c.latency.other),
            micros_sv(MetricId::VolCloudLatencyTotal, base, c.latency.total),
            gauge_sv(MetricId::VolCloudIopsRead, base, c.iops.read),
            gauge_sv(MetricId::VolCloudIopsWrite, base, c.iops.write),
            gauge_sv(MetricId::VolCloudIopsOther, base, c.iops.other),
            gauge_sv(MetricId::VolCloudIopsTotal, base, c.iops.total),
        ]
    } else {
        Seq::empty()
    }
}

/// FlexCache performance samples; skipped unless the block's status is
/// "ok".
pub open spec fn vol_flexcache_samples(base: Seq<Seq<char>>, f: StorageMetricFlexCache) -> Seq<
    SampleView,
> {
    if f.status@ == "ok"@ {
        opt_gauge_sv(
            MetricId::VolFlexcacheSampleDuration,
            base,
            spec_duration_seconds(f.duration@),
        ) + seq![gauge_sv(MetricId::VolFlexcacheCacheMissPercent, base, f.cache_miss_percent)]
    } else {
        Seq::empty()
    }
}

/// Performance samples of one volume, including the optional cloud and
/// FlexCache sub-blocks; a block whose status is not "ok" yields nothing.
pub open spec fn vol_metric_samples(base: Seq<Seq<char>>, v: Volume) -> Seq<SampleView> {
    match v.metric {
        Some(m) => if m.status@ == "ok"@ {
            metric_block_samples(
                spec_vol_metric_ids(),
                base,
                m.duration@,
                m.throughput,
                m.latency,
                m.iops,
            ) + (match m.cloud {
                Some(c) => vol_cloud_samples(base, c),
                None => Seq::empty(),
            }) + (match m.flexcache {
                Some(f) => vol_flexcache_samples(base, f),
                None => Seq::empty(),
            })
        } else {
            Seq::empty()
        },
        None => Seq::empty(),
    }
}

/// SnapLock settings: type, append mode, litigation figures, audit-log
/// flag and privileged-delete state.
pub open spec fn vol_snaplock_samples(base: Seq<Seq<char>>, v: Volume) -> Seq<SampleView> {
    match v.snaplock {
        Some(s) => one_hot_samples(
            MetricId::VolSnaplockType,
            base,
            spec_snaplock_type_vocab(),
            s.snaplock_type@,
        ) + opt_bool_gauge_sv(MetricId::VolSnaplockAppendModeEnabled, base, s.append_mode_enabled)
            + opt_gauge_sv(MetricId::VolSnaplockLitigationCount, base, s.litigation_count)
            + opt_gauge_sv(
            MetricId::VolSnaplockUnspecifiedRetentionFiles,
            base,
            s.unspecified_retention_file_count,
        ) + opt_bool_gauge_sv(MetricId::VolSnaplockIsAuditLog, base, s.is_audit_log) + (
        match s.privileged_delete {
            Some(pd) => one_hot_samples(
                MetricId::VolSnaplockPrivilegedDelete,
                base,
                spec_privileged_delete_vocab(),
                pd@,
            ),
            None => Seq::empty(),
        }),
        None => Seq::empty(),
    }
}

/// Volume-move progress and policies.
pub open spec fn vol_movement_samples(base: Seq<Seq<char>>, v: Volume) -> Seq<SampleView> {
    match v.movement {
        Some(m) => opt_gauge_sv(MetricId::VolMovementPercentComplete, base, m.percent_complete)
            + opt_gauge_sv(MetricId::VolMovementCutoverWindow, base, m.cutover_window) + (
        match m.tiering_policy {
            Some(tp) => one_hot_samples(
                MetricId::VolMovementTieringPolicy,
                base,
                spec_tiering_policy_vocab(),
                tp@,
            ),
            None => Seq::empty(),
        }) + (match m.state {
            Some(st) => one_hot_samples(
                MetricId::VolMovementState,
                base,
                spec_movement_state_vocab(),
                st@,
            ),
            None => Seq::empty(),
        }),
        None => Seq::empty(),
    }
}

/// Encryption settings.
pub open spec fn vol_encryption_samples(base: Seq<Seq<char>>, v: Volume) -> Seq<SampleView> {
    match v.encryption {
        Some(e) => (match e.enc_type {
            Some(t) => one_hot_samples(MetricId::VolEncryptionType, base, spec_enc_type_vocab(), t@),
            None => Seq::empty(),
        }) + (match e.state {
            Some(st) => one_hot_samples(
                MetricId::VolEncryptionState,
                base,
                spec_enc_state_vocab(),
                st@,
            ),
            None => Seq::empty(),
        }) + seq![gauge_sv(MetricId::VolEncryptionEnabled, base, bool_to_i64(e.enabled))],
        None => Seq::empty(),
    }
}

/// Tiering settings.
pub open spec fn vol_tiering_samples(base: Seq<Seq<char>>, v: Volume) -> Seq<SampleView> {
    match v.tiering {
        Some(t) => one_hot_samples(MetricId::VolTieringPolicy, base, spec_tiering_policy_vocab(), t.policy@)
            + opt_bool_gauge_sv(MetricId::VolTieringSupported, base, t.supported)
            + opt_gauge_sv(MetricId::VolTieringMinCoolingDays, base, t.min_cooling_days),
        None => Seq::empty(),
    }
}

/// Style, encryption and tiering settings.
pub open spec fn vol_trailer_samples(base: Seq<Seq<char>>, v: Volume) -> Seq<SampleView> {
    (match v.style {
        Some(s) => one_hot_samples(MetricId::VolStyle, base, spec_style_vocab(), s@),
        None => Seq::empty(),
    }) + vol_encryption_samples(base, v) + vol_tiering_samples(base, v)
}

/// Sections up to the performance block.
pub open spec fn vol_head_samples(base: Seq<Seq<char>>, v: Volume) -> Seq<SampleView> {
    vol_basic_samples(base, v) + vol_class_samples(base, v) + vol_efficiency_samples(base, v)
        + vol_metric_samples(base, v)
}

/// Sections after the performance block.
pub open spec fn vol_tail_samples(base: Seq<Seq<char>>, v: Volume) -> Seq<SampleView> {
    opt_bool_gauge_sv(MetricId::VolAccessTimeEnabled, base, v.access_time_enabled)
        + opt_bool_gauge_sv(MetricId::VolQueueForEncryption, base, v.queue_for_encryption)
        + vol_snaplock_samples(base, v) + vol_movement_samples(base, v) + vol_trailer_samples(
        base,
        v,
    )
}

/// All samples of one volume record. A volume that reports no state is
/// not active on this node and contributes nothing this cycle.
pub open spec fn volume_record_samples(filer: Seq<char>, v: Volume) -> Seq<SampleView> {
    let base = vol_base(filer, v);
    match v.state {
        None => Seq::empty(),
        Some(st) => one_hot_samples(MetricId::VolState, base, spec_vol_state_vocab(), st@)
            + vol_head_samples(base, v) + vol_tail_samples(base, v),
    }
}

/// All samples of a list of volume records, record by record.
pub open spec fn volumes_samples(filer: Seq<char>, recs: Seq<Volume>) -> Seq<SampleView>
    decreases recs.len(),
{
    if recs.len() == 0 {
        Seq::empty()
    } else {
        volumes_samples(filer, recs.drop_last()) + volume_record_samples(filer, recs.last())
    }
}

// ---- emission ----

#[verifier::rlimit(60)]
fn push_vol_basic(out: &mut Vec<Sample>, base: &Vec<String>, v: &Volume, vocabs: &VolumeVocabularies)
    requires
        vocabs.wf(),
    ensures
        final(out).deep_view() == old(out).deep_view() + vol_basic_samples(base.deep_view(), *v),
{
    let ghost start = out.deep_view();
    if let Some(f) = &v.files {
        push_gauge(out, MetricId::VolFilesMax, clone_labels(base), f.maximum);
        push_gauge(out, MetricId::VolFilesUsed, clone_labels(base), f.used);
    }
    if let Some(e) = &v.error_state {
        let mut l1 = clone_labels(base);
        let ghost l1b = l1;
        let tag1 = "has_bad_blocks".to_owned();
        l1.push(tag1);
        proof {
            crate::sample::lemma_deep_view_push(l1b, l1, tag1);
        }
        push_bool_gauge(out, MetricId::VolErrorState, l1, e.has_bad_blocks);
        let mut l2 = clone_labels(base);
        let ghost l2b = l2;
        let tag2 = "is_inconsistent".to_owned();
        l2.push(tag2);
        proof {
            crate::sample::lemma_deep_view_push(l2b, l2, tag2);
        }
        push_bool_gauge(out, MetricId::VolErrorState, l2, e.is_inconsistent);
    }
    if let Some(a) = &v.autosize {
        push_gauge(out, MetricId::VolAutosizeMin, clone_labels(base), a.minimum);
        push_gauge(out, MetricId::VolAutosizeMax, clone_labels(base), a.maximum);
        push_one_hot(out, MetricId::VolAutosizeMode, base, &vocabs.autosize_mode, &a.mode);
        push_gauge(out, MetricId::VolAutosizeShrinkThreshold, clone_labels(base), a.shrink_threshold);
        push_gauge(out, MetricId::VolAutosizeGrowThreshold, clone_labels(base), a.grow_threshold);
    }
    if let Some(b) = v.is_object_store {
        push_bool_gauge(out, MetricId::VolIsObjectStore, clone_labels(base), b);
    }
    if let Some(aggrs) = &v.aggregates {
        push_gauge(out, MetricId::VolNumberOfAggregates, clone_labels(base), len_i64(aggrs.len()));
    }
    proof {
        assert(out.deep_view() =~= start + vol_basic_samples(base.deep_view(), *v));
    }
}

fn push_vol_class(out: &mut Vec<Sample>, base: &Vec<String>, v: &Volume, vocabs: &VolumeVocabularies)
    requires
        vocabs.wf(),
    ensures
        final(out).deep_view() == old(out).deep_view() + vol_class_samples(base.deep_view(), *v),
{
    let ghost start = out.deep_view();
    if let Some(s) = &v.flexcache_endpoint_type {
        push_one_hot(out, MetricId::VolFlexCacheEndpointType, base, &vocabs.flexcache_endpoint, s);
    }
    if let Some(s) = &v.vol_type {
        push_one_hot(out, MetricId::VolType, base, &vocabs.vol_type, s);
    }
    if let Some(s) = &v.cloud_retrieval_policy {
        push_one_hot(out, MetricId::VolCloudRetrievalPolicy, base, &vocabs.cloud_retrieval, s);
    }
    if let Some(q) = &v.quota {
        push_one_hot(out, MetricId::VolQuotaState, base, &vocabs.quota_state, &q.state);
    }
    proof {
        assert(out.deep_view() =~= start + vol_class_samples(base.deep_view(), *v));
    }
}

fn push_vol_efficiency(
    out: &mut Vec<Sample>,
    base: &Vec<String>,
    v: &Volume,
    vocabs: &VolumeVocabularies,
)
    requires
        vocabs.wf(),
    ensures
        final(out).deep_view() == old(out).deep_view() + vol_efficiency_samples(
            base.deep_view(),
            *v,
        ),
{
    let ghost start = out.deep_view();
    if let Some(e) = &v.efficiency {
        if let Some(c) = &e.compression {
            push_one_hot(out, MetricId::VolEfficiencyCompression, base, &vocabs.efficiency, c);
        }
        if let Some(c) = &e.compaction {
            push_one_hot(out, MetricId::VolEfficiencyCompaction, base, &vocabs.compaction, c);
        }
        if let Some(d) = &e.dedupe {
            push_one_hot(out, MetricId::VolEfficiencyDedupe, base, &vocabs.efficiency, d);
        }
        if let Some(d) = &e.cross_volume_dedupe {
            push_one_hot(out, MetricId::VolEfficiencyCrossVolumeDedupe, base, &vocabs.efficiency, d);
        }
    }
    proof {
        assert(out.deep_view() =~= start + vol_efficiency_samples(base.deep_view(), *v));
    }
}

#[verifier::rlimit(60)]
fn push_vol_metric(out: &mut Vec<Sample>, base: &Vec<String>, v: &Volume)
    ensures
        final(out).deep_view() == old(out).deep_view() + vol_metric_samples(base.deep_view(), *v),
{
    let ghost start = out.deep_view();
    if let Some(m) = &v.metric {
        if string_eq(&m.status, &"ok".to_owned()) {
            push_metric_block(
                out,
                vol_metric_ids(),
                base,
                &m.duration,
                &m.throughput,
                &m.latency,
                &m.iops,
            );
            if let Some(c) = &m.cloud {
                if string_eq(&c.status, &"ok".to_owned()) {
                    let d = duration_seconds(&c.duration);
                    push_opt_gauge(out, MetricId::VolCloudSampleDuration, clone_labels(base), &d);
                    push_micros(out, MetricId::VolCloudLatencyRead, clone_labels(base), c.latency.read);
                    push_micros(out, MetricId::VolCloudLatencyWrite, clone_labels(base), c.latency.write);
                    push_micros(out, MetricId::VolCloudLatencyOther, clone_labels(base), c.latency.other);
                    push_micros(out, MetricId::VolCloudLatencyTotal, clone_labels(base), c.latency.total);
                    push_gauge(out, MetricId::VolCloudIopsRead, clone_labels(base), c.iops.read);
                    push_gauge(out, MetricId::VolCloudIopsWrite, clone_labels(base), c.iops.write);
                    push_gauge(out, MetricId::VolCloudIopsOther, clone_labels(base), c.iops.other);
                    push_gauge(out, MetricId::VolCloudIopsTotal, clone_labels(base), c.iops.total);
                }
                proof {
                    assert(out.deep_view() =~= start + metric_block_samples(
                        spec_vol_metric_ids(),
                        base.deep_view(),
                        m.duration@,
                        m.throughput,
                        m.latency,
                        m.iops,
                    ) + vol_cloud_samples(base.deep_view(), *c));
                }
            }
            let ghost s2 = out.deep_view();
            if let Some(f) = &m.flexcache {
                if string_eq(&f.status, &"ok".to_owned()) {
                    let d = duration_seconds(&f.duration);
                    push_opt_gauge(out, MetricId::VolFlexcacheSampleDuration, clone_labels(base), &d);
                    push_gauge(
                        out,
                        MetricId::VolFlexcacheCacheMissPercent,
                        clone_labels(base),
                        f.cache_miss_percent,
                    );
                }
                proof {
                    assert(out.deep_view() =~= s2 + vol_flexcache_samples(base.deep_view(), *f));
                }
            }
        }
    }
    proof {
        assert(out.deep_view() =~= start + vol_metric_samples(base.deep_view(), *v));
    }
}

fn push_vol_snaplock(
    out: &mut Vec<Sample>,
    base: &Vec<String>,
    v: &Volume,
    vocabs: &VolumeVocabularies,
)
    requires
        vocabs.wf(),
    ensures
        final(out).deep_view() == old(out).deep_view() + vol_snaplock_samples(
            base.deep_view(),
            *v,
        ),
{
    let ghost start = out.deep_view();
    if let Some(s) = &v.snaplock {
        push_one_hot(out, MetricId::VolSnaplockType, base, &vocabs.snaplock_type, &s.snaplock_type);
        push_opt_bool_gauge(
            out,
            MetricId::VolSnaplockAppendModeEnabled,
            clone_labels(base),
            &s.append_mode_enabled,
        );
        push_opt_gauge(
            out,
            MetricId::VolSnaplockLitigationCount,
            clone_labels(base),
            &s.litigation_count,
        );
        push_opt_gauge(
            out,
            MetricId::VolSnaplockUnspecifiedRetentionFiles,
            clone_labels(base),
            &s.unspecified_retention_file_count,
        );
        push_opt_bool_gauge(out, MetricId::VolSnaplockIsAuditLog, clone_labels(base), &s.is_audit_log);
        if let Some(pd) = &s.privileged_delete {
            push_one_hot(out, MetricId::VolSnaplockPrivilegedDelete, base, &vocabs.privileged_delete, pd);
        }
    }
    proof {
        assert(out.deep_view() =~= start + vol_snaplock_samples(base.deep_view(), *v));
    }
}

fn push_vol_movement(
    out: &mut Vec<Sample>,
    base: &Vec<String>,
    v: &Volume,
    vocabs: &VolumeVocabularies,
)
    requires
        vocabs.wf(),
    ensures
        final(out).deep_view() == old(out).deep_view() + vol_movement_samples(
            base.deep_view(),
            *v,
        ),
{
    let ghost start = out.deep_view();
    if let Some(m) = &v.movement {
        push_opt_gauge(out, MetricId::VolMovementPercentComplete, clone_labels(base), &m.percent_complete);
        push_opt_gauge(out, MetricId::VolMovementCutoverWindow, clone_labels(base), &m.cutover_window);
        if let Some(tp) = &m.tiering_policy {
            push_one_hot(out, MetricId::VolMovementTieringPolicy, base, &vocabs.tiering_policy, tp);
        }
        if let Some(st) = &m.state {
            push_one_hot(out, MetricId::VolMovementState, base, &vocabs.movement_state, st);
        }
    }
    proof {
        assert(out.deep_view() =~= start + vol_movement_samples(base.deep_view(), *v));
    }
}

fn push_vol_encryption(
    out: &mut Vec<Sample>,
    base: &Vec<String>,
    v: &Volume,
    vocabs: &VolumeVocabularies,
)
    requires
        vocabs.wf(),
    ensures
        final(out).deep_view() == old(out).deep_view() + vol_encryption_samples(
            base.deep_view(),
            *v,
        ),
{
    let ghost start = out.deep_view();
    if let Some(e) = &v.encryption {
        if let Some(t) = &e.enc_type {
            push_one_hot(out, MetricId::VolEncryptionType, base, &vocabs.enc_type, t);
        }
        if let Some(st) = &e.state {
            push_one_hot(out, MetricId::VolEncryptionState, base, &vocabs.enc_state, st);
        }
        push_bool_gauge(out, MetricId::VolEncryptionEnabled, clone_labels(base), e.enabled);
    }
    proof {
        assert(out.deep_view() =~= start + vol_encryption_samples(base.deep_view(), *v));
    }
}

fn push_vol_tiering(
    out: &mut Vec<Sample>,
    base: &Vec<String>,
    v: &Volume,
    vocabs: &VolumeVocabularies,
)
    requires
        vocabs.wf(),
    ensures
        final(out).deep_view() == old(out).deep_view() + vol_tiering_samples(base.deep_view(), *v),
{
    let ghost start = out.deep_view();
    if let Some(t) = &v.tiering {
        push_one_hot(out, MetricId::VolTieringPolicy, base, &vocabs.tiering_policy, &t.policy);
        push_opt_bool_gauge(out, MetricId::VolTieringSupported, clone_labels(base), &t.supported);
        push_opt_gauge(out, MetricId::VolTieringMinCoolingDays, clone_labels(base), &t.min_cooling_days);
    }
    proof {
        assert(out.deep_view() =~= start + vol_tiering_samples(base.deep_view(), *v));
    }
}

fn push_vol_trailer(
    out: &mut Vec<Sample>,
    base: &Vec<String>,
    v: &Volume,
    vocabs: &VolumeVocabularies,
)
    requires
        vocabs.wf(),
    ensures
        final(out).deep_view() == old(out).deep_view() + vol_trailer_samples(base.deep_view(), *v),
{
    let ghost start = out.deep_view();
    if let Some(s) = &v.style {
        push_one_hot(out, MetricId::VolStyle, base, &vocabs.style, s);
    }
    push_vol_encryption(out, base, v, vocabs);
    push_vol_tiering(out, base, v, vocabs);
    proof {
        assert(out.deep_view() =~= start + vol_trailer_samples(base.deep_view(), *v));
    }
}

fn push_vol_head(out: &mut Vec<Sample>, base: &Vec<String>, v: &Volume, vocabs: &VolumeVocabularies)
    requires
        vocabs.wf(),
    ensures
        final(out).deep_view() == old(out).deep_view() + vol_head_samples(base.deep_view(), *v),
{
    let ghost start = out.deep_view();
    push_vol_basic(out, base, v, vocabs);
    push_vol_class(out, base, v, vocabs);
    push_vol_efficiency(out, base, v, vocabs);
    push_vol_metric(out, base, v);
    proof {
        assert(out.deep_view() =~= start + vol_head_samples(base.deep_view(), *v));
    }
}

#[verifier::rlimit(60)]
fn push_vol_tail(out: &mut Vec<Sample>, base: &Vec<String>, v: &Volume, vocabs: &VolumeVocabularies)
    requires
        vocabs.wf(),
    ensures
        final(out).deep_view() == old(out).deep_view() + vol_tail_samples(base.deep_view(), *v),
{
    let ghost start = out.deep_view();
    push_opt_bool_gauge(out, MetricId::VolAccessTimeEnabled, clone_labels(base), &v.access_time_enabled);
    push_opt_bool_gauge(out, MetricId::VolQueueForEncryption, clone_labels(base), &v.queue_for_encryption);
    push_vol_snaplock(out, base, v, vocabs);
    push_vol_movement(out, base, v, vocabs);
    push_vol_trailer(out, base, v, vocabs);
    proof {
        assert(out.deep_view() =~= start + vol_tail_samples(base.deep_view(), *v));
    }
}

fn push_volume(out: &mut Vec<Sample>, filer: &String, v: &Volume, vocabs: &VolumeVocabularies)
    requires
        vocabs.wf(),
    ensures
        final(out).deep_view() == old(out).deep_view() + volume_record_samples(filer@, *v),
{
    let ghost start = out.deep_view();
    if let Some(st) = &v.state {
        let base = labels2(filer, &v.name);
        proof {
            assert(base.deep_view() == vol_base(filer@, *v));
        }
        push_one_hot(out, MetricId::VolState, &base, &vocabs.state, st);
        push_vol_head(out, &base, v, vocabs);
        push_vol_tail(out, &base, v, vocabs);
    }
    proof {
        assert(out.deep_view() =~= start + volume_record_samples(filer@, *v));
    }
}

/// Decode and publish the samples of every volume record of one storage
/// system.
pub fn update_volumes(filer_name: &String, list: &VolumeList) -> (samples: Vec<Sample>)
    ensures
        samples.deep_view() == volumes_samples(filer_name@, list.records@),
{
    let vocabs = VolumeVocabularies::build();
    let mut out: Vec<Sample> = Vec::new();
    proof {
        assert(out.deep_view() =~= Seq::<SampleView>::empty());
        assert(out.deep_view() =~= volumes_samples(filer_name@, list.records@.take(0)));
    }
    let n = list.records.len();
    let mut i: usize = 0;
    while i < n
        invariant
            i <= n,
            n == list.records@.len(),
            vocabs.wf(),
            out.deep_view() == volumes_samples(filer_name@, list.records@.take(i as int)),
        decreases n - i,
    {
        push_volume(&mut out, filer_name, &list.records[i], &vocabs);
        proof {
            assert(list.records@.take(i as int + 1).drop_last() =~= list.records@.take(i as int));
            assert(list.records@.take(i as int + 1).last() == list.records@[i as int]);
        }
        i = i + 1;
    }
    proof {
        assert(list.records@.take(n as int) =~= list.records@);
    }
    out
}

} // verus!
