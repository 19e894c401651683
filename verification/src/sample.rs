use vstd::prelude::*;

verus! {

/// Identity of one metric family in the exposed document. Every sample a
/// collector emits names one of these; the exposition name, help text and
/// label names belong to the registry descriptors.
#[derive(Clone, Copy, Debug, PartialEq, Eq, Structural)]
pub enum MetricId {
    // Aggregates
    AggrFootprint,
    AggrBlockStorageSize,
    AggrBlockStorageUsed,
    AggrBlockStorageAvailable,
    AggrBlockStorageFullThreshold,
    AggrEfficiencyLogicalUsed,
    AggrEfficiencySavings,
    AggrEfficiencyWoSnapshotsLogicalUsed,
    AggrEfficiencyWoSnapshotsSavings,
    AggrCloudStorageUsed,
    AggrBlockStoragePlexes,
    AggrHybridCacheEnabled,
    AggrHybridCacheDiskUsed,
    AggrHybridCacheSize,
    AggrHybridCacheUsed,
    AggrPrimaryDisks,
    AggrPrimaryRaidSize,
    AggrMirrorEnabled,
    AggrMirrorState,
    AggrState,
    AggrSampleDuration,
    AggrThroughputRead,
    AggrThroughputWrite,
    AggrThroughputOther,
    AggrThroughputTotal,
    AggrLatencyRead,
    AggrLatencyWrite,
    AggrLatencyOther,
    AggrLatencyTotal,
    AggrIopsRead,
    AggrIopsWrite,
    AggrIopsOther,
    AggrIopsTotal,
    // Volumes
    VolState,
    VolFilesMax,
    VolFilesUsed,
    VolErrorState,
    VolAutosizeMin,
    VolAutosizeMax,
    VolAutosizeMode,
    VolAutosizeShrinkThreshold,
    VolAutosizeGrowThreshold,
    VolIsObjectStore,
    VolNumberOfAggregates,
    VolFlexCacheEndpointType,
    VolType,
    VolCloudRetrievalPolicy,
    VolQuotaState,
    VolEfficiencyCompression,
    VolEfficiencyCompaction,
    VolEfficiencyDedupe,
    VolEfficiencyCrossVolumeDedupe,
    VolSampleDuration,
    VolThroughputRead,
    VolThroughputWrite,
    VolThroughputOther,
    VolThroughputTotal,
    VolLatencyRead,
    VolLatencyWrite,
    VolLatencyOther,
    VolLatencyTotal,
    VolIopsRead,
    VolIopsWrite,
    VolIopsOther,
    VolIopsTotal,
    VolCloudSampleDuration,
    VolCloudLatencyRead,
    VolCloudLatencyWrite,
    VolCloudLatencyOther,
    VolCloudLatencyTotal,
    VolCloudIopsRead,
    VolCloudIopsWrite,
    VolCloudIopsOther,
    VolCloudIopsTotal,
    VolFlexcacheSampleDuration,
    VolFlexcacheCacheMissPercent,
    VolAccessTimeEnabled,
    VolQueueForEncryption,
    VolSnaplockType,
    VolSnaplockAppendModeEnabled,
    VolSnaplockLitigationCount,
    VolSnaplockUnspecifiedRetentionFiles,
    VolSnaplockIsAuditLog,
    VolSnaplockPrivilegedDelete,
    VolMovementPercentComplete,
    VolMovementCutoverWindow,
    VolMovementTieringPolicy,
    VolMovementState,
    VolStyle,
    VolEncryptionType,
    VolEncryptionState,
    VolEncryptionEnabled,
    VolTieringPolicy,
    VolTieringSupported,
    VolTieringMinCoolingDays,
    // Quotas (tree, group, user)
    TreeQuotaSpaceUsed,
    TreeQuotaSpaceHardLimitPercent,
    TreeQuotaSpaceSoftLimitPercent,
    TreeQuotaSpaceHardLimit,
    TreeQuotaSpaceSoftLimit,
    TreeQuotaFilesUsed,
    TreeQuotaFilesHardLimitPercent,
    TreeQuotaFilesSoftLimitPercent,
    TreeQuotaFilesHardLimit,
    TreeQuotaFilesSoftLimit,
    GroupQuotaSpaceUsed,
    GroupQuotaSpaceHardLimitPercent,
    GroupQuotaSpaceSoftLimitPercent,
    GroupQuotaSpaceHardLimit,
    GroupQuotaSpaceSoftLimit,
    GroupQuotaFilesUsed,
    GroupQuotaFilesHardLimitPercent,
    GroupQuotaFilesSoftLimitPercent,
    GroupQuotaFilesHardLimit,
    GroupQuotaFilesSoftLimit,
    UserQuotaSpaceUsed,
    UserQuotaSpaceHardLimitPercent,
    UserQuotaSpaceSoftLimitPercent,
    UserQuotaSpaceHardLimit,
    UserQuotaSpaceSoftLimit,
    UserQuotaFilesUsed,
    UserQuotaFilesHardLimitPercent,
    UserQuotaFilesSoftLimitPercent,
    UserQuotaFilesHardLimit,
    UserQuotaFilesSoftLimit,
    // Chassis
    ChassisState,
    ChassisShelves,
    ChassisNodes,
    ChassisFruState,
    ChassisUsbSupported,
    ChassisUsbEnabled,
    ChassisUsbPortConnected,
    // Jobs
    ClusterJobState,
    // Ethernet ports
    EthSpeed,
    EthEnabled,
    EthMtu,
    EthUp,
    EthType,
    EthReceiveBytes,
    EthTransmitBytes,
    EthReceiveErrors,
    EthReceiveDiscards,
    EthReceivePackets,
    EthTransmitErrors,
    EthTransmitDiscards,
    EthTransmitPackets,
    // Fibre channel ports
    FcState,
    FcEnabled,
    FcReceiveBytes,
    FcTransmitBytes,
    FcPhysicalProtocol,
    // CIFS sessions
    CifsProtocols,
    CifsSmbEncryption,
    CifsContinuousAvailability,
    CifsOpenFiles,
    CifsOpenShares,
    CifsOpenOther,
    CifsAuthentication,
    CifsSmbSigning,
    CifsUser,
    CifsMappedUnixUser,
    CifsClients,
    CifsVolumes,
    CifsLargeMtu,
    CifsConnections,
    // NFS clients
    NfsProtocols,
    NfsVolumes,
    NfsLocalRequests,
    NfsRemoteRequests,
    NfsClients,
    // Scrape bookkeeping
    ScrapeErrorsTotal,
}

/// How a metric is exposed: a plain integer gauge, an ever-increasing
/// counter, or a gauge reported by the device in microseconds and exposed
/// in seconds.
#[derive(Clone, Copy, Debug, PartialEq, Eq, Structural)]
pub enum MetricKind {
    Gauge,
    Counter,
    MicrosGauge,
}

/// The value carried by one sample; the variant fixes how the consumer
/// renders it (see `MetricKind`).
#[derive(Clone, Copy, Debug, PartialEq, Eq, Structural)]
pub enum SampleValue {
    Int(i64),
    Count(u64),
    Micros(i64),
}

/// One fully-labelled observation produced by a collector during a cycle.
#[derive(Clone, Debug, PartialEq)]
pub struct Sample {
    pub id: MetricId,
    pub labels: Vec<String>,
    pub value: SampleValue,
}

/// Mathematical image of a `Sample`: label values become character
/// sequences.
pub struct SampleView {
    pub id: MetricId,
    pub labels: Seq<Seq<char>>,
    pub value: SampleValue,
}

impl View for Sample {
    type V = SampleView;

    open spec fn view(&self) -> SampleView {
        SampleView { id: self.id, labels: self.labels.deep_view(), value: self.value }
    }
}

impl DeepView for Sample {
    type V = SampleView;

    open spec fn deep_view(&self) -> SampleView {
        self.view()
    }
}

pub open spec fn gauge_sv(id: MetricId, labels: Seq<Seq<char>>, v: i64) -> SampleView {
    SampleView { id, labels, value: SampleValue::Int(v) }
}

pub open spec fn count_sv(id: MetricId, labels: Seq<Seq<char>>, v: u64) -> SampleView {
    SampleView { id, labels, value: SampleValue::Count(v) }
}

pub open spec fn micros_sv(id: MetricId, labels: Seq<Seq<char>>, v: i64) -> SampleView {
    SampleView { id, labels, value: SampleValue::Micros(v) }
}

/// Booleans are exposed as 1 / 0 gauges.
pub open spec fn bool_to_i64(b: bool) -> i64 {
    if b {
        1
    } else {
        0
    }
}

/// Appending an element to a vector appends its image to the vector's
/// deep view.
pub proof fn lemma_deep_view_push<T: DeepView>(v: Vec<T>, w: Vec<T>, x: T)
    requires
        w@ == v@.push(x),
    ensures
        w.deep_view() == v.deep_view().push(x.deep_view()),
{
    assert(w.deep_view() =~= v.deep_view().push(x.deep_view()));
}

/// Append a plain integer gauge sample.
pub fn push_gauge(out: &mut Vec<Sample>, id: MetricId, labels: Vec<String>, v: i64)
    ensures
        final(out).deep_view() == old(out).deep_view().push(gauge_sv(id, labels.deep_view(), v)),
{
    let ghost prev = *out;
    let s = Sample { id, labels, value: SampleValue::Int(v) };
    let ghost sg = s;
    out.push(s);
    proof {
        lemma_deep_view_push(prev, *out, sg);
    }
}

/// Append a boolean gauge sample: 1 when the flag holds, 0 otherwise.
pub fn push_bool_gauge(out: &mut Vec<Sample>, id: MetricId, labels: Vec<String>, b: bool)
    ensures
        final(out).deep_view() == old(out).deep_view().push(
            gauge_sv(id, labels.deep_view(), bool_to_i64(b)),
        ),
{
    let v: i64 = if b {
        1
    } else {
        0
    };
    push_gauge(out, id, labels, v);
}

/// Append a cumulative counter sample.
pub fn push_count(out: &mut Vec<Sample>, id: MetricId, labels: Vec<String>, v: u64)
    ensures
        final(out).deep_view() == old(out).deep_view().push(count_sv(id, labels.deep_view(), v)),
{
    let ghost prev = *out;
    let s = Sample { id, labels, value: SampleValue::Count(v) };
    let ghost sg = s;
    out.push(s);
    proof {
        lemma_deep_view_push(prev, *out, sg);
    }
}

/// Append a microseconds-valued gauge sample.
pub fn push_micros(out: &mut Vec<Sample>, id: MetricId, labels: Vec<String>, v: i64)
    ensures
        final(out).deep_view() == old(out).deep_view().push(micros_sv(id, labels.deep_view(), v)),
{
    let ghost prev = *out;
    let s = Sample { id, labels, value: SampleValue::Micros(v) };
    let ghost sg = s;
    out.push(s);
    proof {
        lemma_deep_view_push(prev, *out, sg);
    }
}

/// Clone a label vector; the copy has the same deep view.
pub fn clone_labels(base: &Vec<String>) -> (out: Vec<String>)
    ensures
        out.deep_view() == base.deep_view(),
{
    let mut out: Vec<String> = Vec::new();
    let mut i: usize = 0;
    while i < base.len()
        invariant
            i <= base.len(),
            out.deep_view() == base.deep_view().take(i as int),
        decreases base.len() - i,
    {
        let ghost prev = out;
        let s = base[i].clone();
        assert(s@ == base@[i as int]@);
        out.push(s);
        proof {
            lemma_deep_view_push(prev, out, s);
            assert(out.deep_view() =~= base.deep_view().take(i as int + 1));
        }
        i = i + 1;
    }
    proof {
        assert(out.deep_view() =~= base.deep_view());
    }
    out
}

/// Samples for an optional plain gauge: present fields emit one sample,
/// absent fields emit none.
pub open spec fn opt_gauge_sv(id: MetricId, labels: Seq<Seq<char>>, o: Option<i64>) -> Seq<
    SampleView,
> {
    match o {
        Some(v) => seq![gauge_sv(id, labels, v)],
        None => Seq::empty(),
    }
}

/// Samples for an optional boolean gauge.
pub open spec fn opt_bool_gauge_sv(id: MetricId, labels: Seq<Seq<char>>, o: Option<bool>) -> Seq<
    SampleView,
> {
    match o {
        Some(b) => seq![gauge_sv(id, labels, bool_to_i64(b))],
        None => Seq::empty(),
    }
}

/// Append a gauge sample for an optional field if it is present.
pub fn push_opt_gauge(out: &mut Vec<Sample>, id: MetricId, labels: Vec<String>, o: &Option<i64>)
    ensures
        final(out).deep_view() == old(out).deep_view() + opt_gauge_sv(id, labels.deep_view(), *o),
{
    let ghost start = out.deep_view();
    match o {
        Some(v) => {
            push_gauge(out, id, labels, *v);
            proof {
                assert(out.deep_view() =~= start + opt_gauge_sv(id, labels.deep_view(), *o));
            }
        },
        None => {
            proof {
                assert(out.deep_view() =~= start + opt_gauge_sv(id, labels.deep_view(), *o));
            }
        },
    }
}

/// Append a boolean gauge sample for an optional field if it is present.
pub fn push_opt_bool_gauge(
    out: &mut Vec<Sample>,
    id: MetricId,
    labels: Vec<String>,
    o: &Option<bool>,
)
    ensures
        final(out).deep_view() == old(out).deep_view() + opt_bool_gauge_sv(
            id,
            labels.deep_view(),
            *o,
        ),
{
    let ghost start = out.deep_view();
    match o {
        Some(b) => {
            push_bool_gauge(out, id, labels, *b);
            proof {
                assert(out.deep_view() =~= start + opt_bool_gauge_sv(id, labels.deep_view(), *o));
            }
        },
        None => {
            proof {
                assert(out.deep_view() =~= start + opt_bool_gauge_sv(id, labels.deep_view(), *o));
            }
        },
    }
}

/// A one-element label tuple.
pub fn labels1(a: &String) -> (v: Vec<String>)
    ensures
        v.deep_view() == seq![a@],
{
    let mut v: Vec<String> = Vec::new();
    v.push(a.clone());
    proof {
        assert(v.deep_view() =~= seq![a@]);
    }
    v
}

/// A two-element label tuple.
pub fn labels2(a: &String, b: &String) -> (v: Vec<String>)
    ensures
        v.deep_view() == seq![a@, b@],
{
    let mut v: Vec<String> = Vec::new();
    v.push(a.clone());
    v.push(b.clone());
    proof {
        assert(v.deep_view() =~= seq![a@, b@]);
    }
    v
}

/// A three-element label tuple.
pub fn labels3(a: &String, b: &String, c: &String) -> (v: Vec<String>)
    ensures
        v.deep_view() == seq![a@, b@, c@],
{
    let mut v: Vec<String> = Vec::new();
    v.push(a.clone());
    v.push(b.clone());
    v.push(c.clone());
    proof {
        assert(v.deep_view() =~= seq![a@, b@, c@]);
    }
    v
}

/// A four-element label tuple.
pub fn labels4(a: &String, b: &String, c: &String, d: &String) -> (v: Vec<String>)
    ensures
        v.deep_view() == seq![a@, b@, c@, d@],
{
    let mut v: Vec<String> = Vec::new();
    v.push(a.clone());
    v.push(b.clone());
    v.push(c.clone());
    v.push(d.clone());
    proof {
        assert(v.deep_view() =~= seq![a@, b@, c@, d@]);
    }
    v
}

/// Two label tuples are the same exactly when their images agree.
pub fn labels_eq(a: &Vec<String>, b: &Vec<String>) -> (r: bool)
    ensures
        r == (a.deep_view() == b.deep_view()),
{
    if a.len() != b.len() {
        assert(a.deep_view().len() != b.deep_view().len());
        return false;
    }
    let mut i: usize = 0;
    while i < a.len()
        invariant
            i <= a.len(),
            a@.len() == b@.len(),
            forall|j: int| 0 <= j < i ==> a.deep_view()[j] == b.deep_view()[j],
        decreases a.len() - i,
    {
        if !a[i].eq(&b[i]) {
            assert(a.deep_view()[i as int] != b.deep_view()[i as int]);
            return false;
        }
        i = i + 1;
    }
    proof {
        assert(a.deep_view() =~= b.deep_view());
    }
    true
}

/// Copy one sample; the copy has the same image.
pub fn clone_sample(s: &Sample) -> (r: Sample)
    ensures
        r@ == s@,
{
    Sample { id: s.id, labels: clone_labels(&s.labels), value: s.value }
}

} // verus!
