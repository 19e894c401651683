use vstd::prelude::*;

use crate::decode::string_eq;
use crate::sample::{
    clone_labels, gauge_sv, micros_sv, opt_gauge_sv, push_gauge, push_micros, push_opt_gauge,
    MetricId, Sample, SampleView,
};

verus! {

/// Performance sample block reported by the device for a storage object.
/// The `cloud` and `flexcache` blocks exist only on newer firmware.
pub struct StorageMetric {
    pub duration: String,
    pub iops: StorageMetricData,
    pub latency: StorageMetricData,
    pub status: String,
    pub throughput: StorageMetricData,
    pub timestamp: String,
    pub cloud: Option<StorageMetricCloud>,
    pub flexcache: Option<StorageMetricFlexCache>,
}

pub struct StorageMetricFlexCache {
    pub status: String,
    pub duration: String,
    pub cache_miss_percent: i64,
}

pub struct StorageMetricCloud {
    pub timestamp: String,
    pub status: String,
    pub iops: StorageMetricData,
    pub latency: StorageMetricData,
    pub duration: String,
}

pub struct StorageMetricData {
    pub other: i64,
    pub read: i64,
    pub total: i64,
    pub write: i64,
}

/// Raw cumulative statistics reported by the device for a storage object.
pub struct StorageStatistics {
    pub timestamp: String,
    pub status: String,
    pub latency_raw: StorageMetricData,
    pub iops_raw: StorageMetricData,
    pub throughput_raw: StorageMetricData,
}

/// The sample durations the device reports, as seconds. Any other
/// duration string is unsupported and yields no duration sample.
pub open spec fn spec_duration_seconds(d: Seq<char>) -> Option<i64> {
    if d == "PT15S"@ {
        Some(15i64)
    } else if d == "PT1D"@ {
        Some(86400i64)
    } else if d == "PT2H"@ {
        Some(7200i64)
    } else if d == "PT30M"@ {
        Some(1800i64)
    } else if d == "PT4M"@ {
        Some(240i64)
    } else if d == "PT5M"@ {
        Some(300i64)
    } else {
        None
    }
}

/// Decode an ISO-8601 sample duration into seconds.
pub fn duration_seconds(d: &String) -> (r: Option<i64>)
    ensures
        r == spec_duration_seconds(d@),
{
    if string_eq(d, &"PT15S".to_owned()) {
        Some(15)
    } else if string_eq(d, &"PT1D".to_owned()) {
        Some(86400)
    } else if string_eq(d, &"PT2H".to_owned()) {
        Some(7200)
    } else if string_eq(d, &"PT30M".to_owned()) {
        Some(1800)
    } else if string_eq(d, &"PT4M".to_owned()) {
        Some(240)
    } else if string_eq(d, &"PT5M".to_owned()) {
        Some(300)
    } else {
        None
    }
}

/// The metric identities a performance block is published under; each
/// storage object family has its own set.
#[derive(Clone, Copy)]
pub struct MetricBlockIds {
    pub duration: MetricId,
    pub throughput_read: MetricId,
    pub throughput_write: MetricId,
    pub throughput_other: MetricId,
    pub throughput_total: MetricId,
    pub latency_read: MetricId,
    pub latency_write: MetricId,
    pub latency_other: MetricId,
    pub latency_total: MetricId,
    pub iops_read: MetricId,
    pub iops_write: MetricId,
    pub iops_other: MetricId,
    pub iops_total: MetricId,
}

/// Samples of one performance block: the decoded duration if supported,
/// throughput and operation rates as plain gauges, and latencies as
/// microsecond gauges exposed in seconds.
pub open spec fn metric_block_samples(
    ids: MetricBlockIds,
    base: Seq<Seq<char>>,
    duration: Seq<char>,
    throughput: StorageMetricData,
    latency: StorageMetricData,
    iops: StorageMetricData,
) -> Seq<SampleView> {
    opt_gauge_sv(ids.duration, base, spec_duration_seconds(duration)) + seq![
        gauge_sv(ids.throughput_read, base, throughput.read),
        gauge_sv(ids.throughput_write, base, throughput.write),
        gauge_sv(ids.throughput_other, base, throughput.other),
        gauge_sv(ids.throughput_total, base, throughput.total),
        micros_sv(ids.latency_read, base, latency.read),
        micros_sv(ids.latency_write, base, latency.write),
        micros_sv(ids.latency_other, base, latency.other),
        micros_sv(ids.latency_total, base, latency.total),
        gauge_sv(ids.iops_read, base, iops.read),
        gauge_sv(ids.iops_write, base, iops.write),
        gauge_sv(ids.iops_other, base, iops.other),
        gauge_sv(ids.iops_total, base, iops.total),
    ]
}

/// Append the samples of one performance block.
pub fn push_metric_block(
    out: &mut Vec<Sample>,
    ids: MetricBlockIds,
    base: &Vec<String>,
    duration: &String,
    throughput: &StorageMetricData,
    latency: &StorageMetricData,
    iops: &StorageMetricData,
)
    ensures
        final(out).deep_view() == old(out).deep_view() + metric_block_samples(
            ids,
            base.deep_view(),
            duration@,
            *throughput,
            *latency,
            *iops,
        ),
{
    let ghost start = out.deep_view();
    let d = duration_seconds(duration);
    push_opt_gauge(out, ids.duration, clone_labels(base), &d);
    push_gauge(out, ids.throughput_read, clone_labels(base), throughput.read);
    push_gauge(out, ids.throughput_write, clone_labels(base), throughput.write);
    push_gauge(out, ids.throughput_other, clone_labels(base), throughput.other);
    push_gauge(out, ids.throughput_total, clone_labels(base), throughput.total);
    push_micros(out, ids.latency_read, clone_labels(base), latency.read);
    push_micros(out, ids.latency_write, clone_labels(base), latency.write);
    push_micros(out, ids.latency_other, clone_labels(base), latency.other);
    push_micros(out, ids.latency_total, clone_labels(base), latency.total);
    push_gauge(out, ids.iops_read, clone_labels(base), iops.read);
    push_gauge(out, ids.iops_write, clone_labels(base), iops.write);
    push_gauge(out, ids.iops_other, clone_labels(base), iops.other);
    push_gauge(out, ids.iops_total, clone_labels(base), iops.total);
    proof {
        assert(out.deep_view() =~= start + metric_block_samples(
            ids,
            base.deep_view(),
            duration@,
            *throughput,
            *latency,
            *iops,
        ));
    }
}

} // verus!
