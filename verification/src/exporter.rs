use vstd::prelude::*;

use crate::aggregates::{aggregates_samples, update_aggregates, AggregateList};
use crate::chassis::{chassis_samples, update_chassis, ChassisList};
use crate::cifs::{cifs_samples, update_cifs, CifsList};
use crate::constants::{
    TARGET_AGGREGATES, TARGET_CHASSIS, TARGET_CIFS, TARGET_CIFS_CLIENT_IP,
    TARGET_CIFS_MAPPED_USER, TARGET_CIFS_USER, TARGET_ETHERNET, TARGET_FIBRECHANNEL, TARGET_JOBS,
    TARGET_NFS, TARGET_NFS_CLIENT_IP, TARGET_QUOTAS, TARGET_VOLUMES,
};
use crate::counter::{spec_counters, CounterKeyView, CounterState};
use crate::decode::string_eq;
use crate::ethernet::eth_fold;
use crate::fibrechannel::fc_fold;
use crate::jobs::{jobs_samples, update_jobs, JobList};
use crate::nfs::{nfs_samples, update_nfs, NfsList};
use crate::quotas::{quotas_samples, update_quotas, QuotaList};
use crate::sample::{MetricId, MetricKind, Sample, SampleValue, SampleView};
use crate::volumes::{update_volumes, volumes_samples, VolumeList};

verus! {

// ---- the value store ----

/// The last value set for every series this process has published.
/// Entities that fail a cycle keep their last successfully reported
/// values: a sample is replaced only by a newer sample for the same
/// series.
pub struct MetricStore {
    pub entries: Vec<Sample>,
}

/// Key of one series in the store.
pub open spec fn sample_key(s: SampleView) -> (MetricId, Seq<Seq<char>>) {
    (s.id, s.labels)
}

impl MetricStore {
    /// Internal invariant: one entry per series.
    pub open spec fn wf(self) -> bool {
        forall|i: int, j: int|
            0 <= i < j < self.entries@.len() ==> sample_key(self.entries@[i]@) != sample_key(
                self.entries@[j]@,
            )
    }

    pub open spec fn spec_contains(self, k: (MetricId, Seq<Seq<char>>)) -> bool {
        exists|i: int| 0 <= i < self.entries@.len() && sample_key(self.entries@[i]@) == k
    }

    pub open spec fn spec_index_of(self, k: (MetricId, Seq<Seq<char>>)) -> int {
        choose|i: int| 0 <= i < self.entries@.len() && sample_key(self.entries@[i]@) == k
    }

    /// The store as a map from series to current value.
    pub open spec fn as_map(self) -> Map<(MetricId, Seq<Seq<char>>), SampleValue> {
        Map::new(
            |k: (MetricId, Seq<Seq<char>>)| self.spec_contains(k),
            |k: (MetricId, Seq<Seq<char>>)| self.entries@[self.spec_index_of(k)]@.value,
        )
    }

    /// An empty store.
    pub fn new() -> (s: Self)
        ensures
            s.wf(),
            s.as_map() == Map::<(MetricId, Seq<Seq<char>>), SampleValue>::empty(),
    {
        let s = MetricStore { entries: Vec::new() };
        proof {
            assert(s.as_map() =~= Map::<(MetricId, Seq<Seq<char>>), SampleValue>::empty());
        }
        s
    }

    /// Set the current value of one series, adding the series if this is
    /// its first sample.
    pub fn upsert(&mut self, s: Sample)
        requires
            old(self).wf(),
        ensures
            final(self).wf(),
            final(self).as_map() == old(self).as_map().insert(sample_key(s@), s@.value),
    {
        let ghost pre = *self;
        let n = self.entries.len();
        let mut i: usize = 0;
        let mut pos: usize = 0;
        let mut found = false;
        while i < n
            invariant
                i <= n,
                n == self.entries@.len(),
                *self == pre,
                !found ==> forall|j: int|
                    0 <= j < i ==> sample_key(self.entries@[j]@) != sample_key(s@),
                found ==> pos < i && sample_key(self.entries@[pos as int]@) == sample_key(s@),
            decreases n - i,
        {
            if !found && self.entries[i].id == s.id && crate::sample::labels_eq(
                &self.entries[i].labels,
                &s.labels,
            ) {
                found = true;
                pos = i;
            }
            i = i + 1;
        }
        if found {
            self.entries[pos] = s;
            proof {
                lemma_store_frame(pre, *self, sample_key(s@), pos as int);
                assert(self.as_map() =~= pre.as_map().insert(sample_key(s@), s@.value));
            }
        } else {
            proof {
                assert(!pre.spec_contains(sample_key(s@)));
            }
            self.entries.push(s);
            proof {
                lemma_store_push_frame(pre, *self, sample_key(s@));
                assert(self.as_map() =~= pre.as_map().insert(sample_key(s@), s@.value));
            }
        }
    }

    /// Apply a cycle's samples in order; a later sample for the same
    /// series overrides an earlier one.
    pub fn apply(&mut self, samples: &Vec<Sample>)
        requires
            old(self).wf(),
        ensures
            final(self).wf(),
            final(self).as_map() == spec_apply_samples(old(self).as_map(), samples.deep_view()),
    {
        let ghost all = samples.deep_view();
        let n = samples.len();
        let mut i: usize = 0;
        while i < n
            invariant
                i <= n,
                n == samples@.len(),
                all == samples.deep_view(),
                self.wf(),
                self.as_map() == spec_apply_samples(old(self).as_map(), all.take(i as int)),
            decreases n - i,
        {
            self.upsert(crate::sample::clone_sample(&samples[i]));
            proof {
                assert(samples@[i as int]@ == all[i as int]);
                assert(all.take(i as int + 1).drop_last() =~= all.take(i as int));
                assert(all.take(i as int + 1).last() == all[i as int]);
            }
            i = i + 1;
        }
        proof {
            assert(all.take(n as int) =~= all);
        }
    }
}

/// A cycle's samples folded into the store map, in order.
pub open spec fn spec_apply_samples(
    m: Map<(MetricId, Seq<Seq<char>>), SampleValue>,
    svs: Seq<SampleView>,
) -> Map<(MetricId, Seq<Seq<char>>), SampleValue>
    decreases svs.len(),
{
    if svs.len() == 0 {
        m
    } else {
        spec_apply_samples(m, svs.drop_last()).insert(
            sample_key(svs.last()),
            svs.last().value,
        )
    }
}

proof fn lemma_store_frame(pre: MetricStore, post: MetricStore, k: (MetricId, Seq<Seq<char>>), pos: int)
    requires
        pre.wf(),
        0 <= pos < pre.entries@.len(),
        sample_key(pre.entries@[pos]@) == k,
        post.entries@.len() == pre.entries@.len(),
        sample_key(post.entries@[pos]@) == k,
        forall|j: int| 0 <= j < pre.entries@.len() && j != pos ==> post.entries@[j] == pre.entries@[j],
    ensures
        post.wf(),
        post.spec_contains(k),
        post.spec_index_of(k) == pos,
        pre.spec_index_of(k) == pos,
        forall|k2: (MetricId, Seq<Seq<char>>)|
            k2 != k ==> post.spec_contains(k2) == pre.spec_contains(k2),
        forall|k2: (MetricId, Seq<Seq<char>>)|
            k2 != k && pre.spec_contains(k2) ==> post.entries@[post.spec_index_of(k2)]@.value
                == pre.entries@[pre.spec_index_of(k2)]@.value,
{
    assert(forall|j: int|
        0 <= j < post.entries@.len() ==> sample_key(post.entries@[j]@) == sample_key(
            pre.entries@[j]@,
        ));
    lemma_store_unique(pre, k, pos);
    assert(post.wf());
    lemma_store_unique(post, k, pos);
    assert forall|k2: (MetricId, Seq<Seq<char>>)| k2 != k implies post.spec_contains(k2)
        == pre.spec_contains(k2) by {
        if pre.spec_contains(k2) {
            let i = pre.spec_index_of(k2);
            assert(sample_key(post.entries@[i]@) == k2);
        }
        if post.spec_contains(k2) {
            let i = post.spec_index_of(k2);
            assert(sample_key(pre.entries@[i]@) == k2);
        }
    }
    assert forall|k2: (MetricId, Seq<Seq<char>>)| k2 != k && pre.spec_contains(k2) implies
        post.entries@[post.spec_index_of(k2)]@.value == pre.entries@[pre.spec_index_of(
        k2,
    )]@.value by {
        let i = pre.spec_index_of(k2);
        assert(0 <= i < pre.entries@.len() && sample_key(pre.entries@[i]@) == k2);
        lemma_store_unique(post, k2, i);
        lemma_store_unique(pre, k2, i);
        assert(i != pos);
    }
}

proof fn lemma_store_push_frame(pre: MetricStore, post: MetricStore, k: (MetricId, Seq<Seq<char>>))
    requires
        pre.wf(),
        !pre.spec_contains(k),
        post.entries@.len() == pre.entries@.len() + 1,
        forall|j: int| 0 <= j < pre.entries@.len() ==> post.entries@[j] == pre.entries@[j],
        sample_key(post.entries@.last()@) == k,
    ensures
        post.wf(),
        post.spec_contains(k),
        post.spec_index_of(k) == pre.entries@.len(),
        forall|k2: (MetricId, Seq<Seq<char>>)|
            k2 != k ==> post.spec_contains(k2) == pre.spec_contains(k2),
        forall|k2: (MetricId, Seq<Seq<char>>)|
            k2 != k && pre.spec_contains(k2) ==> post.entries@[post.spec_index_of(k2)]@.value
                == pre.entries@[pre.spec_index_of(k2)]@.value,
{
    let m = pre.entries@.len() as int;
    assert(forall|j: int|
        0 <= j < m ==> sample_key(post.entries@[j]@) == sample_key(pre.entries@[j]@));
    assert forall|i: int, j: int|
        0 <= i < j < post.entries@.len() implies sample_key(post.entries@[i]@) != sample_key(
        post.entries@[j]@,
    ) by {
        if j == m {
            assert(sample_key(pre.entries@[i]@) != k) by {
                if sample_key(pre.entries@[i]@) == k {
                    assert(pre.spec_contains(k));
                }
            }
        }
    }
    assert(post.wf());
    lemma_store_unique(post, k, m);
    assert forall|k2: (MetricId, Seq<Seq<char>>)| k2 != k implies post.spec_contains(k2)
        == pre.spec_contains(k2) by {
        if pre.spec_contains(k2) {
            let i = pre.spec_index_of(k2);
            assert(sample_key(post.entries@[i]@) == k2);
        }
        if post.spec_contains(k2) {
            let i = post.spec_index_of(k2);
            assert(0 <= i < post.entries@.len() && sample_key(post.entries@[i]@) == k2);
            assert(i != m);
            assert(sample_key(pre.entries@[i]@) == k2);
        }
    }
    assert forall|k2: (MetricId, Seq<Seq<char>>)| k2 != k && pre.spec_contains(k2) implies
        post.entries@[post.spec_index_of(k2)]@.value == pre.entries@[pre.spec_index_of(
        k2,
    )]@.value by {
        let i = pre.spec_index_of(k2);
        assert(0 <= i < pre.entries@.len() && sample_key(pre.entries@[i]@) == k2);
        lemma_store_unique(post, k2, i);
        lemma_store_unique(pre, k2, i);
    }
}

proof fn lemma_store_unique(s: MetricStore, k: (MetricId, Seq<Seq<char>>), pos: int)
    requires
        s.wf(),
        0 <= pos < s.entries@.len(),
        sample_key(s.entries@[pos]@) == k,
    ensures
        s.spec_contains(k),
        s.spec_index_of(k) == pos,
{
    assert(s.spec_contains(k));
    let i = s.spec_index_of(k);
    assert(0 <= i < s.entries@.len() && sample_key(s.entries@[i]@) == k);
    if i != pos {
        if i < pos {
            assert(sample_key(s.entries@[i]@) != sample_key(s.entries@[pos]@));
        } else {
            assert(sample_key(s.entries@[pos]@) != sample_key(s.entries@[i]@));
        }
        assert(false);
    }
}

// ---- scrape error accounting ----

/// Abstract state of the scrape-error counters: the failed target and
/// resource pairs in first-failure order and the number of failures of
/// each.
pub struct ErrView {
    pub filers: Seq<Seq<char>>,
    pub kinds: Seq<ResourceKind>,
    pub counts: Seq<u64>,
}

/// One recorded failure: bump the pair's count, starting at 1 for a pair
/// that never failed before. A count saturates instead of wrapping.
pub open spec fn spec_err_bump(e: ErrView, filer: Seq<char>, kind: ResourceKind) -> ErrView {
    if exists|i: int| 0 <= i < e.filers.len() && e.filers[i] == filer && e.kinds[i] == kind {
        let i = choose|i: int|
            0 <= i < e.filers.len() && e.filers[i] == filer && e.kinds[i] == kind;
        ErrView {
            filers: e.filers,
            kinds: e.kinds,
            counts: e.counts.update(
                i,
                if e.counts[i] == u64::MAX {
                    u64::MAX
                } else {
                    (e.counts[i] + 1) as u64
                },
            ),
        }
    } else {
        ErrView {
            filers: e.filers.push(filer),
            kinds: e.kinds.push(kind),
            counts: e.counts.push(1),
        }
    }
}

/// Per-process counters of failed collector invocations, per target and
/// resource, so that partial failure is observable in the exposed
/// document rather than only in logs.
pub struct ScrapeErrors {
    pub filers: Vec<String>,
    pub kinds: Vec<ResourceKind>,
    pub counts: Vec<u64>,
}

impl View for ScrapeErrors {
    type V = ErrView;

    open spec fn view(&self) -> ErrView {
        ErrView { filers: self.filers.deep_view(), kinds: self.kinds@, counts: self.counts@ }
    }
}

impl ScrapeErrors {
    /// Internal invariant: the three columns line up and no pair repeats.
    pub open spec fn wf(self) -> bool {
        &&& self@.filers.len() == self@.kinds.len()
        &&& self@.filers.len() == self@.counts.len()
        &&& forall|i: int, j: int|
            0 <= i < j < self@.filers.len() ==> !(self@.filers[i] == self@.filers[j]
                && self@.kinds[i] == self@.kinds[j])
    }

    /// No failures recorded yet.
    pub fn new() -> (e: Self)
        ensures
            e.wf(),
            e@.filers == Seq::<Seq<char>>::empty(),
            e@.kinds == Seq::<ResourceKind>::empty(),
            e@.counts == Seq::<u64>::empty(),
    {
        let e = ScrapeErrors { filers: Vec::new(), kinds: Vec::new(), counts: Vec::new() };
        proof {
            assert(e@.filers =~= Seq::<Seq<char>>::empty());
        }
        e
    }

    /// Record one failed collector invocation.
    pub fn bump(&mut self, filer: &String, kind: ResourceKind)
        requires
            old(self).wf(),
        ensures
            final(self).wf(),
            final(self)@ == spec_err_bump(old(self)@, filer@, kind),
    {
        let ghost pre = self@;
        let n = self.filers.len();
        let mut i: usize = 0;
        let mut pos: usize = 0;
        let mut found = false;
        while i < n
            invariant
                i <= n,
                n == self.filers@.len(),
                self@ == pre,
                self.wf(),
                !found ==> forall|j: int|
                    0 <= j < i ==> !(self@.filers[j] == filer@ && self@.kinds[j] == kind),
                found ==> pos < i && self@.filers[pos as int] == filer@ && self@.kinds[pos as int]
                    == kind,
            decreases n - i,
        {
            if !found && string_eq(&self.filers[i], filer) && self.kinds[i] == kind {
                found = true;
                pos = i;
            }
            i = i + 1;
        }
        if found {
            proof {
                let w = choose|w: int|
                    0 <= w < pre.filers.len() && pre.filers[w] == filer@ && pre.kinds[w] == kind;
                if w != pos {
                    assert(!(pre.filers[w] == pre.filers[pos as int] && pre.kinds[w]
                        == pre.kinds[pos as int]));
                }
            }
            let c = self.counts[pos];
            let bumped: u64 = if c == u64::MAX {
                c
            } else {
                c + 1
            };
            self.counts[pos] = bumped;
            proof {
                assert(self@.filers =~= pre.filers);
                assert(self@.kinds =~= pre.kinds);
                assert(self@.counts =~= spec_err_bump(pre, filer@, kind).counts);
            }
        } else {
            proof {
                assert(!exists|j: int|
                    0 <= j < pre.filers.len() && pre.filers[j] == filer@ && pre.kinds[j] == kind);
            }
            let ghost filers_before = self.filers;
            let f = filer.clone();
            self.filers.push(f);
            self.kinds.push(kind);
            self.counts.push(1);
            proof {
                crate::sample::lemma_deep_view_push(filers_before, self.filers, f);
            }
        }
    }
}

// ---- scrape orchestration ----

/// One resource family a collector serves.
#[derive(Clone, Copy, Debug, PartialEq, Eq, Structural)]
pub enum ResourceKind {
    Aggregates,
    Volumes,
    Quotas,
    Chassis,
    Jobs,
    Ethernet,
    FibreChannel,
    Cifs,
    Nfs,
}

/// The decoded records one fetch produced.
pub enum ResourceRecords {
    Aggregates(AggregateList),
    Volumes(VolumeList),
    Quotas(QuotaList),
    Chassis(ChassisList),
    Jobs(JobList),
    Ethernet(crate::ethernet::PortList),
    FibreChannel(crate::fibrechannel::PortList),
    Cifs(CifsList),
    Nfs(NfsList),
}

/// Which resource a records value belongs to.
pub open spec fn records_kind(r: ResourceRecords) -> ResourceKind {
    match r {
        ResourceRecords::Aggregates(_) => ResourceKind::Aggregates,
        ResourceRecords::Volumes(_) => ResourceKind::Volumes,
        ResourceRecords::Quotas(_) => ResourceKind::Quotas,
        ResourceRecords::Chassis(_) => ResourceKind::Chassis,
        ResourceRecords::Jobs(_) => ResourceKind::Jobs,
        ResourceRecords::Ethernet(_) => ResourceKind::Ethernet,
        ResourceRecords::FibreChannel(_) => ResourceKind::FibreChannel,
        ResourceRecords::Cifs(_) => ResourceKind::Cifs,
        ResourceRecords::Nfs(_) => ResourceKind::Nfs,
    }
}

/// What one fetch of one resource of one target came back with. A
/// transport failure (connect, TLS, timeout) and a decode failure
/// (malformed or schema-mismatched body) are handled alike: fatal for
/// this target and resource for this cycle only.
pub enum FetchOutcome {
    Records(ResourceRecords),
    TransportError(ResourceKind, String),
    DecodeError(ResourceKind, String),
}

/// The resource a fetch outcome belongs to.
pub open spec fn outcome_kind(o: FetchOutcome) -> ResourceKind {
    match o {
        FetchOutcome::Records(r) => records_kind(r),
        FetchOutcome::TransportError(k, _) => k,
        FetchOutcome::DecodeError(k, _) => k,
    }
}

pub open spec fn outcome_is_ok(o: FetchOutcome) -> bool {
    o is Records
}

/// One collector invocation of one scrape cycle: the target's name, its
/// capability mask, and what the fetch came back with.
pub struct FetchStep {
    pub filer: String,
    pub mask: u64,
    pub outcome: FetchOutcome,
}

/// The resources enabled by a capability mask, in collection order.
pub open spec fn spec_enabled_resources(mask: u64) -> Seq<ResourceKind> {
    let v = Seq::<ResourceKind>::empty();
    let v = if mask & TARGET_AGGREGATES == TARGET_AGGREGATES {
        v.push(ResourceKind::Aggregates)
    } else {
        v
    };
    let v = if mask & TARGET_QUOTAS == TARGET_QUOTAS {
        v.push(ResourceKind::Quotas)
    } else {
        v
    };
    let v = if mask & TARGET_VOLUMES == TARGET_VOLUMES {
        v.push(ResourceKind::Volumes)
    } else {
        v
    };
    let v = if mask & TARGET_CHASSIS == TARGET_CHASSIS {
        v.push(ResourceKind::Chassis)
    } else {
        v
    };
    let v = if mask & TARGET_JOBS == TARGET_JOBS {
        v.push(ResourceKind::Jobs)
    } else {
        v
    };
    let v = if mask & TARGET_ETHERNET == TARGET_ETHERNET {
        v.push(ResourceKind::Ethernet)
    } else {
        v
    };
    let v = if mask & TARGET_FIBRECHANNEL == TARGET_FIBRECHANNEL {
        v.push(ResourceKind::FibreChannel)
    } else {
        v
    };
    let v = if mask & TARGET_CIFS == TARGET_CIFS {
        v.push(ResourceKind::Cifs)
    } else {
        v
    };
    let v = if mask & TARGET_NFS == TARGET_NFS {
        v.push(ResourceKind::Nfs)
    } else {
        v
    };
    v
}

/// Decode a capability mask into the resources to collect, in order.
pub fn enabled_resources(mask: u64) -> (v: Vec<ResourceKind>)
    ensures
        v@ == spec_enabled_resources(mask),
{
    let mut v: Vec<ResourceKind> = Vec::new();
    proof {
        assert(v@ =~= Seq::<ResourceKind>::empty());
    }
    if mask & TARGET_AGGREGATES == TARGET_AGGREGATES {
        v.push(ResourceKind::Aggregates);
    }
    if mask & TARGET_QUOTAS == TARGET_QUOTAS {
        v.push(ResourceKind::Quotas);
    }
    if mask & TARGET_VOLUMES == TARGET_VOLUMES {
        v.push(ResourceKind::Volumes);
    }
    if mask & TARGET_CHASSIS == TARGET_CHASSIS {
        v.push(ResourceKind::Chassis);
    }
    if mask & TARGET_JOBS == TARGET_JOBS {
        v.push(ResourceKind::Jobs);
    }
    if mask & TARGET_ETHERNET == TARGET_ETHERNET {
        v.push(ResourceKind::Ethernet);
    }
    if mask & TARGET_FIBRECHANNEL == TARGET_FIBRECHANNEL {
        v.push(ResourceKind::FibreChannel);
    }
    if mask & TARGET_CIFS == TARGET_CIFS {
        v.push(ResourceKind::Cifs);
    }
    if mask & TARGET_NFS == TARGET_NFS {
        v.push(ResourceKind::Nfs);
    }
    v
}

/// The samples a successful fetch decodes to and the counter map it
/// leaves behind. The CIFS and NFS cardinality sub-flags come from the
/// target's capability mask.
pub open spec fn records_samples(
    filer: Seq<char>,
    mask: u64,
    r: ResourceRecords,
    m0: Map<CounterKeyView, (u64, u64)>,
) -> (Map<CounterKeyView, (u64, u64)>, Seq<SampleView>) {
    match r {
        ResourceRecords::Aggregates(list) => (m0, aggregates_samples(filer, list.records@)),
        ResourceRecords::Volumes(list) => (m0, volumes_samples(filer, list.records@)),
        ResourceRecords::Quotas(list) => (m0, quotas_samples(filer, list.records@)),
        ResourceRecords::Chassis(list) => (m0, chassis_samples(filer, list.records@)),
        ResourceRecords::Jobs(list) => (m0, jobs_samples(filer, list.records@)),
        ResourceRecords::Ethernet(list) => eth_fold(filer, list.records@, m0),
        ResourceRecords::FibreChannel(list) => fc_fold(filer, list.records@, m0),
        ResourceRecords::Cifs(list) => (
            m0,
            cifs_samples(
                filer,
                list.records@,
                mask & TARGET_CIFS_CLIENT_IP == TARGET_CIFS_CLIENT_IP,
                mask & TARGET_CIFS_MAPPED_USER == TARGET_CIFS_MAPPED_USER,
                mask & TARGET_CIFS_USER == TARGET_CIFS_USER,
            ),
        ),
        ResourceRecords::Nfs(list) => nfs_samples(
            filer,
            list.records@,
            mask & TARGET_NFS_CLIENT_IP == TARGET_NFS_CLIENT_IP,
            m0,
        ),
    }
}

/// The whole exporter state one scrape cycle reads and writes: the value
/// store, the counter reconciliation state and the scrape error counters.
pub struct Exporter {
    pub store: MetricStore,
    pub counters: CounterState,
    pub errors: ScrapeErrors,
}

/// One step of the cycle on the abstract state: a successful fetch folds
/// its samples into the store and advances the counter map; a failed
/// fetch only bumps its error counter.
pub open spec fn spec_apply_step(
    store: Map<(MetricId, Seq<Seq<char>>), SampleValue>,
    counters: Map<CounterKeyView, (u64, u64)>,
    errors: ErrView,
    step: FetchStep,
) -> (Map<(MetricId, Seq<Seq<char>>), SampleValue>, Map<CounterKeyView, (u64, u64)>, ErrView) {
    match step.outcome {
        FetchOutcome::Records(r) => {
            let (m1, samples) = records_samples(step.filer@, step.mask, r, counters);
            (spec_apply_samples(store, samples), m1, errors)
        },
        FetchOutcome::TransportError(k, _) => (store, counters, spec_err_bump(errors, step.filer@, k)),
        FetchOutcome::DecodeError(k, _) => (store, counters, spec_err_bump(errors, step.filer@, k)),
    }
}

/// A cycle's steps folded left to right.
pub open spec fn spec_run_steps(
    store: Map<(MetricId, Seq<Seq<char>>), SampleValue>,
    counters: Map<CounterKeyView, (u64, u64)>,
    errors: ErrView,
    steps: Seq<FetchStep>,
) -> (Map<(MetricId, Seq<Seq<char>>), SampleValue>, Map<CounterKeyView, (u64, u64)>, ErrView)
    decreases steps.len(),
{
    if steps.len() == 0 {
        (store, counters, errors)
    } else {
        let (s1, c1, e1) = spec_run_steps(store, counters, errors, steps.drop_last());
        spec_apply_step(s1, c1, e1, steps.last())
    }
}

impl Exporter {
    pub open spec fn wf(self) -> bool {
        &&& self.store.wf()
        &&& self.counters.wf()
        &&& self.errors.wf()
    }

    /// A fresh exporter: empty store, empty counter state, no errors.
    pub fn new() -> (e: Self)
        ensures
            e.wf(),
            e.store.as_map() == Map::<(MetricId, Seq<Seq<char>>), SampleValue>::empty(),
            spec_counters(e.counters) == Map::<CounterKeyView, (u64, u64)>::empty(),
            e.errors@.filers == Seq::<Seq<char>>::empty(),
    {
        let e = Exporter {
            store: MetricStore::new(),
            counters: CounterState::new(),
            errors: ScrapeErrors::new(),
        };
        proof {
            assert(spec_counters(e.counters) =~= Map::<CounterKeyView, (u64, u64)>::empty());
        }
        e
    }

    /// Apply the outcome of one collector invocation. A failure never
    /// touches the store or the counter state: entities that failed this
    /// cycle keep their last successfully reported values.
    pub fn apply_fetch(&mut self, step: &FetchStep)
        requires
            old(self).wf(),
        ensures
            final(self).wf(),
            ({
                let (s1, c1, e1) = spec_apply_step(
                    old(self).store.as_map(),
                    spec_counters(old(self).counters),
                    old(self).errors@,
                    *step,
                );
                &&& final(self).store.as_map() == s1
                &&& spec_counters(final(self).counters) == c1
                &&& final(self).errors@ == e1
            }),
    {
        match &step.outcome {
            FetchOutcome::Records(r) => {
                let samples: Vec<Sample> = match r {
                    ResourceRecords::Aggregates(list) => update_aggregates(&step.filer, list),
                    ResourceRecords::Volumes(list) => update_volumes(&step.filer, list),
                    ResourceRecords::Quotas(list) => update_quotas(&step.filer, list),
                    ResourceRecords::Chassis(list) => update_chassis(&step.filer, list),
                    ResourceRecords::Jobs(list) => update_jobs(&step.filer, list),
                    ResourceRecords::Ethernet(list) => crate::ethernet::update_ethernet(
                        &step.filer,
                        list,
                        &mut self.counters,
                    ),
                    ResourceRecords::FibreChannel(list) => crate::fibrechannel::update_fibrechannel(
                        &step.filer,
                        list,
                        &mut self.counters,
                    ),
                    ResourceRecords::Cifs(list) => update_cifs(
                        &step.filer,
                        list,
                        step.mask & TARGET_CIFS_CLIENT_IP == TARGET_CIFS_CLIENT_IP,
                        step.mask & TARGET_CIFS_MAPPED_USER == TARGET_CIFS_MAPPED_USER,
                        step.mask & TARGET_CIFS_USER == TARGET_CIFS_USER,
                    ),
                    ResourceRecords::Nfs(list) => update_nfs(
                        &step.filer,
                        list,
                        step.mask & TARGET_NFS_CLIENT_IP == TARGET_NFS_CLIENT_IP,
                        &mut self.counters,
                    ),
                };
                self.store.apply(&samples);
            },
            FetchOutcome::TransportError(k, _) => {
                self.errors.bump(&step.filer, *k);
            },
            FetchOutcome::DecodeError(k, _) => {
                self.errors.bump(&step.filer, *k);
            },
        }
    }

    /// Run one scrape cycle over the given collector outcomes, strictly
    /// in order. Each invocation is isolated: a failure is recorded and
    /// the cycle proceeds with the next resource and the next target.
    pub fn update_metrics(&mut self, steps: &Vec<FetchStep>)
        requires
            old(self).wf(),
        ensures
            final(self).wf(),
            ({
                let (s1, c1, e1) = spec_run_steps(
                    old(self).store.as_map(),
                    spec_counters(old(self).counters),
                    old(self).errors@,
                    steps@,
                );
                &&& final(self).store.as_map() == s1
                &&& spec_counters(final(self).counters) == c1
                &&& final(self).errors@ == e1
            }),
    {
        let n = steps.len();
        let mut i: usize = 0;
        while i < n
            invariant
                i <= n,
                n == steps@.len(),
                self.wf(),
                ({
                    let (s1, c1, e1) = spec_run_steps(
                        old(self).store.as_map(),
                        spec_counters(old(self).counters),
                        old(self).errors@,
                        steps@.take(i as int),
                    );
                    &&& self.store.as_map() == s1
                    &&& spec_counters(self.counters) == c1
                    &&& self.errors@ == e1
                }),
            decreases n - i,
        {
            self.apply_fetch(&steps[i]);
            proof {
                assert(steps@.take(i as int + 1).drop_last() =~= steps@.take(i as int));
                assert(steps@.take(i as int + 1).last() == steps@[i as int]);
            }
            i = i + 1;
        }
        proof {
            assert(steps@.take(n as int) =~= steps@);
        }
    }
}

/// The successful steps of a cycle, in order.
pub open spec fn successful_steps(steps: Seq<FetchStep>) -> Seq<FetchStep>
    decreases steps.len(),
{
    if steps.len() == 0 {
        Seq::empty()
    } else {
        successful_steps(steps.drop_last()) + (if outcome_is_ok(steps.last().outcome) {
            seq![steps.last()]
        } else {
            Seq::<FetchStep>::empty()
        })
    }
}

/// Partial-failure isolation law. The value store and the counter state
/// a cycle ends with depend only on the successful fetches: however many
/// targets or resources failed, every series collected from the others
/// is updated exactly as if the failures had not been in the cycle at
/// all. Failures reach only the error counters.
pub proof fn lemma_partial_failure_isolation(
    store: Map<(MetricId, Seq<Seq<char>>), SampleValue>,
    counters: Map<CounterKeyView, (u64, u64)>,
    errors: ErrView,
    steps: Seq<FetchStep>,
)
    ensures
        spec_run_steps(store, counters, errors, steps).0 == spec_run_steps(
            store,
            counters,
            errors,
            successful_steps(steps),
        ).0,
        spec_run_steps(store, counters, errors, steps).1 == spec_run_steps(
            store,
            counters,
            errors,
            successful_steps(steps),
        ).1,
    decreases steps.len(),
{
    if steps.len() > 0 {
        lemma_partial_failure_isolation(store, counters, errors, steps.drop_last());
        let last = steps.last();
        if outcome_is_ok(last.outcome) {
            let ok = successful_steps(steps.drop_last()) + seq![last];
            assert(ok.drop_last() =~= successful_steps(steps.drop_last()));
            assert(ok.last() == last);
            assert(successful_steps(steps) =~= ok);
        } else {
            assert(successful_steps(steps) =~= successful_steps(steps.drop_last()));
        }
    }
}

/// The value of the resource label one kind appears under.
pub open spec fn spec_resource_label(kind: ResourceKind) -> Seq<char> {
    match kind {
        ResourceKind::Aggregates => "aggregates"@,
        ResourceKind::Volumes => "volumes"@,
        ResourceKind::Quotas => "quotas"@,
        ResourceKind::Chassis => "chassis"@,
        ResourceKind::Jobs => "jobs"@,
        ResourceKind::Ethernet => "ethernet"@,
        ResourceKind::FibreChannel => "fibrechannel"@,
        ResourceKind::Cifs => "cifs"@,
        ResourceKind::Nfs => "nfs"@,
    }
}

/// The value of the resource label one kind appears under.
pub fn resource_label(kind: ResourceKind) -> (r: String)
    ensures
        r@ == spec_resource_label(kind),
{
    match kind {
        ResourceKind::Aggregates => "aggregates".to_owned(),
        ResourceKind::Volumes => "volumes".to_owned(),
        ResourceKind::Quotas => "quotas".to_owned(),
        ResourceKind::Chassis => "chassis".to_owned(),
        ResourceKind::Jobs => "jobs".to_owned(),
        ResourceKind::Ethernet => "ethernet".to_owned(),
        ResourceKind::FibreChannel => "fibrechannel".to_owned(),
        ResourceKind::Cifs => "cifs".to_owned(),
        ResourceKind::Nfs => "nfs".to_owned(),
    }
}

/// The counter samples the scrape-error state exposes: one per failed
/// target and resource pair, labelled with the target and the resource.
pub open spec fn err_samples(e: ErrView) -> Seq<SampleView> {
    Seq::new(
        e.filers.len(),
        |i: int|
            crate::sample::count_sv(
                MetricId::ScrapeErrorsTotal,
                seq![e.filers[i], spec_resource_label(e.kinds[i])],
                e.counts[i],
            ),
    )
}

impl Exporter {
    /// Publish the scrape-error counters.
    pub fn error_samples(&self) -> (samples: Vec<Sample>)
        requires
            self.errors.wf(),
        ensures
            samples.deep_view() == err_samples(self.errors@),
    {
        let mut out: Vec<Sample> = Vec::new();
        proof {
            assert(out.deep_view() =~= Seq::<SampleView>::empty());
        }
        let ghost full = err_samples(self.errors@);
        let n = self.errors.filers.len();
        let mut i: usize = 0;
        while i < n
            invariant
                i <= n,
                self.errors.wf(),
                n == self.errors@.filers.len(),
                full == err_samples(self.errors@),
                out.deep_view() == full.take(i as int),
            decreases n - i,
        {
            let label = resource_label(self.errors.kinds[i]);
            crate::sample::push_count(
                &mut out,
                MetricId::ScrapeErrorsTotal,
                crate::sample::labels2(&self.errors.filers[i], &label),
                self.errors.counts[i],
            );
            proof {
                assert(out.deep_view() =~= full.take(i as int + 1));
            }
            i = i + 1;
        }
        proof {
            assert(full.take(n as int) =~= full);
        }
        out
    }
}

// ---- registry descriptors ----

/// One metric family's descriptor: identity, exposition name, help text,
/// label names and exposition kind.
pub struct MetricDef {
    pub id: MetricId,
    pub name: String,
    pub help: String,
    pub labels: Vec<String>,
    pub kind: MetricKind,
}

/// The identities of a descriptor list, in order.
pub open spec fn def_ids(s: Seq<MetricDef>) -> Seq<MetricId> {
    Seq::new(s.len(), |i: int| s[i].id)
}

/// The exposition names of a descriptor list, in order.
pub open spec fn def_names(s: Seq<MetricDef>) -> Seq<Seq<char>> {
    Seq::new(s.len(), |i: int| s[i].name@)
}

/// The exposition kinds of a descriptor list, in order.
pub open spec fn def_kinds(s: Seq<MetricDef>) -> Seq<MetricKind> {
    Seq::new(s.len(), |i: int| s[i].kind)
}

/// The identities register_aggregate_metrics registers, in order.
pub open spec fn spec_aggregate_metric_def_ids() -> Seq<MetricId> {
    seq![
        MetricId::AggrFootprint,
        MetricId::AggrBlockStorageSize,
        MetricId::AggrBlockStorageUsed,
        MetricId::AggrBlockStorageAvailable,
        MetricId::AggrBlockStorageFullThreshold,
        MetricId::AggrEfficiencyLogicalUsed,
        MetricId::AggrEfficiencySavings,
        MetricId::AggrEfficiencyWoSnapshotsLogicalUsed,
        MetricId::AggrEfficiencyWoSnapshotsSavings,
        MetricId::AggrCloudStorageUsed,
        MetricId::AggrBlockStoragePlexes,
        MetricId::AggrHybridCacheEnabled,
        MetricId::AggrHybridCacheDiskUsed,
        MetricId::AggrHybridCacheSize,
        MetricId::AggrHybridCacheUsed,
        MetricId::AggrPrimaryDisks,
        MetricId::AggrPrimaryRaidSize,
        MetricId::AggrMirrorEnabled,
        MetricId::AggrMirrorState,
        MetricId::AggrState,
        MetricId::AggrSampleDuration,
        MetricId::AggrThroughputRead,
        MetricId::AggrThroughputWrite,
        MetricId::AggrThroughputOther,
        MetricId::AggrThroughputTotal,
        MetricId::AggrLatencyRead,
        MetricId::AggrLatencyWrite,
        MetricId::AggrLatencyOther,
        MetricId::AggrLatencyTotal,
        MetricId::AggrIopsRead,
        MetricId::AggrIopsWrite,
        MetricId::AggrIopsOther,
        MetricId::AggrIopsTotal,
    ]
}

/// The exposition names register_aggregate_metrics registers, in order.
pub open spec fn spec_aggregate_metric_def_names() -> Seq<Seq<char>> {
    seq![
        "netapp_aggregate_footprint_bytes"@,
        "netapp_aggregate_block_storage_size_bytes"@,
        "netapp_aggregate_block_storage_used_bytes"@,
        "netapp_aggregate_block_storage_available_bytes"@,
        "netapp_aggregate_block_storage_full_threshold_percent"@,
        "netapp_aggregate_block_storage_efficiency_logical_used_bytes"@,
        "netapp_aggregate_block_storage_efficiency_savings_bytes"@,
        "netapp_aggregate_block_storage_efficiency_without_snapshots_logical_used_bytes"@,
        "netapp_aggregate_block_storage_efficiency_without_snapshots_savings_bytes"@,
        "netapp_aggregate_cloud_storage_used_bytes"@,
        "netapp_aggregate_block_storage_plexes"@,
        "netapp_aggregate_block_storage_hybrid_cache_enabled_info"@,
        "netapp_aggregate_block_storage_hybrid_cache_disk_used"@,
        "netapp_aggregate_block_storage_hybrid_cache_size_bytes"@,
        "netapp_aggregate_block_storage_hybrid_cache_used_bytes"@,
        "netapp_aggregate_block_storage_primary_disks"@,
        "netapp_aggregate_block_storage_primary_raid_size"@,
        "netapp_aggregate_block_storage_mirror_enabled_info"@,
        "netapp_aggregate_block_storage_mirror_state_info"@,
        "netapp_aggregate_state_info"@,
        "netapp_aggregate_metric_sample_duration_seconds"@,
        "netapp_aggregate_metric_throughput_read_bytes_per_second"@,
        "netapp_aggregate_metric_throughput_write_bytes_per_second"@,
        "netapp_aggregate_metric_throughput_other_bytes_per_second"@,
        "netapp_aggregate_metric_throughput_total_bytes_per_second"@,
        "netapp_aggregate_metric_latency_read_seconds"@,
        "netapp_aggregate_metric_latency_write_seconds"@,
        "netapp_aggregate_metric_latency_other_seconds"@,
        "netapp_aggregate_metric_latency_total_seconds"@,
        "netapp_aggregate_metric_iops_read_iops_per_second"@,
        "netapp_aggregate_metric_iops_write_iops_per_second"@,
        "netapp_aggregate_metric_iops_other_iops_per_second"@,
        "netapp_aggregate_metric_iops_total_iops_per_second"@,
    ]
}

/// The exposition kinds register_aggregate_metrics registers, in order.
pub open spec fn spec_aggregate_metric_def_kinds() -> Seq<MetricKind> {
    seq![
        MetricKind::Gauge,
        MetricKind::Gauge,
        MetricKind::Gauge,
        MetricKind::Gauge,
        MetricKind::Gauge,
        MetricKind::Gauge,
        MetricKind::Gauge,
        MetricKind::Gauge,
        MetricKind::Gauge,
        MetricKind::Gauge,
        MetricKind::Gauge,
        MetricKind::Gauge,
        MetricKind::Gauge,
        MetricKind::Gauge,
        MetricKind::Gauge,
        MetricKind::Gauge,
        MetricKind::Gauge,
        MetricKind::Gauge,
        MetricKind::Gauge,
        MetricKind::Gauge,
        MetricKind::Gauge,
        MetricKind::Gauge,
        MetricKind::Gauge,
        MetricKind::Gauge,
        MetricKind::Gauge,
        MetricKind::MicrosGauge,
        MetricKind::MicrosGauge,
        MetricKind::MicrosGauge,
        MetricKind::MicrosGauge,
        MetricKind::Gauge,
        MetricKind::Gauge,
        MetricKind::Gauge,
        MetricKind::Gauge,
    ]
}
/// Register the descriptors of the aggregate collector's metrics.
#[verifier::rlimit(100)]
pub fn register_aggregate_metrics(defs: &mut Vec<MetricDef>)
    ensures
        def_ids(final(defs)@) == def_ids(old(defs)@) + spec_aggregate_metric_def_ids(),
        def_names(final(defs)@) == def_names(old(defs)@) + spec_aggregate_metric_def_names(),
        def_kinds(final(defs)@) == def_kinds(old(defs)@) + spec_aggregate_metric_def_kinds(),
        final(defs)@.take(old(defs)@.len() as int) == old(defs)@,
{
    defs.push(
        MetricDef {
            id: MetricId::AggrFootprint,
            name: "netapp_aggregate_footprint_bytes".to_owned(),
            help: "A summation of volume footprints (including volume guarantees), in bytes".to_owned(),
            labels: vec!["filer".to_owned(), "home_node".to_owned(), "aggregate".to_owned()],
            kind: MetricKind::Gauge,
        },
    );
    defs.push(
        MetricDef {
            id: MetricId::AggrBlockStorageSize,
            name: "netapp_aggregate_block_storage_size_bytes".to_owned(),
            help: "Total usable space in bytes, not including WAFL reserve and aggregate Snapshot copy reserve".to_owned(),
            labels: vec!["filer".to_owned(), "home_node".to_owned(), "aggregate".to_owned()],
            kind: MetricKind::Gauge,
        },
    );
    defs.push(
        MetricDef {
            id: MetricId::AggrBlockStorageUsed,
            name: "netapp_aggregate_block_storage_used_bytes".to_owned(),
            help: "Space used or reserved in bytes includes volume guarantees and aggregate metadata.".to_owned(),
            labels: vec!["filer".to_owned(), "home_node".to_owned(), "aggregate".to_owned()],
            kind: MetricKind::Gauge,
        },
    );
    defs.push(
        MetricDef {
            id: MetricId::AggrBlockStorageAvailable,
            name: "netapp_aggregate_block_storage_available_bytes".to_owned(),
            help: "Space available in bytes".to_owned(),
            labels: vec!["filer".to_owned(), "home_node".to_owned(), "aggregate".to_owned()],
            kind: MetricKind::Gauge,
        },
    );
    defs.push(
        MetricDef {
            id: MetricId::AggrBlockStorageFullThreshold,
            name: "netapp_aggregate_block_storage_full_threshold_percent".to_owned(),
            help: "The aggregate used percentage at which monitor.volume.full EMS is generated".to_owned(),
            labels: vec!["filer".to_owned(), "home_node".to_owned(), "aggregate".to_owned()],
            kind: MetricKind::Gauge,
        },
    );
    defs.push(
        MetricDef {
            id: MetricId::AggrEfficiencyLogicalUsed,
            name: "netapp_aggregate_block_storage_efficiency_logical_used_bytes".to_owned(),
            help: "Logical used including snapshots".to_owned(),
            labels: vec!["filer".to_owned(), "home_node".to_owned(), "aggregate".to_owned()],
            kind: MetricKind::Gauge,
        },
    );
    defs.push(
        MetricDef {
            id: MetricId::AggrEfficiencySavings,
            name: "netapp_aggregate_block_storage_efficiency_savings_bytes".to_owned(),
            help: "Space saved by storage efficiencies including snapshots".to_owned(),
            labels: vec!["filer".to_owned(), "home_node".to_owned(), "aggregate".to_owned()],
            kind: MetricKind::Gauge,
        },
    );
    defs.push(
        MetricDef {
            id: MetricId::AggrEfficiencyWoSnapshotsLogicalUsed,
            name: "netapp_aggregate_block_storage_efficiency_without_snapshots_logical_used_bytes".to_owned(),
            help: "Logical used without snapshots".to_owned(),
            labels: vec!["filer".to_owned(), "home_node".to_owned(), "aggregate".to_owned()],
            kind: MetricKind::Gauge,
        },
    );
    defs.push(
        MetricDef {
            id: MetricId::AggrEfficiencyWoSnapshotsSavings,
            name: "netapp_aggregate_block_storage_efficiency_without_snapshots_savings_bytes".to_owned(),
            help: "Space saved by storage efficiencies without snapshots".to_owned(),
            labels: vec!["filer".to_owned(), "home_node".to_owned(), "aggregate".to_owned()],
            kind: MetricKind::Gauge,
        },
    );
    defs.push(
        MetricDef {
            id: MetricId::AggrCloudStorageUsed,
            name: "netapp_aggregate_cloud_storage_used_bytes".to_owned(),
            help: "Used space in bytes in the cloud store".to_owned(),
            labels: vec!["filer".to_owned(), "home_node".to_owned(), "aggregate".to_owned()],
            kind: MetricKind::Gauge,
        },
    );
    defs.push(
        MetricDef {
            id: MetricId::AggrBlockStoragePlexes,
            name: "netapp_aggregate_block_storage_plexes".to_owned(),
            help: "The number of plexes in the aggregate".to_owned(),
            labels: vec!["filer".to_owned(), "home_node".to_owned(), "aggregate".to_owned()],
            kind: MetricKind::Gauge,
        },
    );
    defs.push(
        MetricDef {
            id: MetricId::AggrHybridCacheEnabled,
            name: "netapp_aggregate_block_storage_hybrid_cache_enabled_info".to_owned(),
            help: "Specifies whether the aggregate uses HDDs with SSDs as a cache".to_owned(),
            labels: vec!["filer".to_owned(), "home_node".to_owned(), "aggregate".to_owned()],
            kind: MetricKind::Gauge,
        },
    );
    defs.push(
        MetricDef {
            id: MetricId::AggrHybridCacheDiskUsed,
            name: "netapp_aggregate_block_storage_hybrid_cache_disk_used".to_owned(),
            help: "Number of disks used in the cache tier of the aggregate".to_owned(),
            labels: vec!["filer".to_owned(), "home_node".to_owned(), "aggregate".to_owned()],
            kind: MetricKind::Gauge,
        },
    );
    defs.push(
        MetricDef {
            id: MetricId::AggrHybridCacheSize,
            name: "netapp_aggregate_block_storage_hybrid_cache_size_bytes".to_owned(),
            help: "Total usable space in bytes of SSD cache".to_owned(),
            labels: vec!["filer".to_owned(), "home_node".to_owned(), "aggregate".to_owned()],
            kind: MetricKind::Gauge,
        },
    );
    defs.push(
        MetricDef {
            id: MetricId::AggrHybridCacheUsed,
            name: "netapp_aggregate_block_storage_hybrid_cache_used_bytes".to_owned(),
            help: "Space used in bytes of SSD cache".to_owned(),
            labels: vec!["filer".to_owned(), "home_node".to_owned(), "aggregate".to_owned()],
            kind: MetricKind::Gauge,
        },
    );
    defs.push(
        MetricDef {
            id: MetricId::AggrPrimaryDisks,
            name: "netapp_aggregate_block_storage_primary_disks".to_owned(),
            help: "Number of disks used in the aggregate including parity disks, but excluding disks in the hybrid cache".to_owned(),
            labels: vec!["filer".to_owned(), "home_node".to_owned(), "aggregate".to_owned()],
            kind: MetricKind::Gauge,
        },
    );
    defs.push(
        MetricDef {
            id: MetricId::AggrPrimaryRaidSize,
            name: "netapp_aggregate_block_storage_primary_raid_size".to_owned(),
            help: "The maximum number of disks that can be included in a RAID group".to_owned(),
            labels: vec!["filer".to_owned(), "home_node".to_owned(), "aggregate".to_owned()],
            kind: MetricKind::Gauge,
        },
    );
    defs.push(
        MetricDef {
            id: MetricId::AggrMirrorEnabled,
            name: "netapp_aggregate_block_storage_mirror_enabled_info".to_owned(),
            help: "Aggregate is SyncMirror protected".to_owned(),
            labels: vec!["filer".to_owned(), "home_node".to_owned(), "aggregate".to_owned()],
            kind: MetricKind::Gauge,
        },
    );
    defs.push(
        MetricDef {
            id: MetricId::AggrMirrorState,
            name: "netapp_aggregate_block_storage_mirror_state_info".to_owned(),
            help: "Current state of SyncMirror".to_owned(),
            labels: vec!["filer".to_owned(), "home_node".to_owned(), "aggregate".to_owned(), "state".to_owned()],
            kind: MetricKind::Gauge,
        },
    );
    defs.push(
        MetricDef {
            id: MetricId::AggrState,
            name: "netapp_aggregate_state_info".to_owned(),
            help: "Operational state of the aggregate".to_owned(),
            labels: vec!["filer".to_owned(), "home_node".to_owned(), "aggregate".to_owned(), "state".to_owned()],
            kind: MetricKind::Gauge,
        },
    );
    defs.push(
        MetricDef {
            id: MetricId::AggrSampleDuration,
            name: "netapp_aggregate_metric_sample_duration_seconds".to_owned(),
            help: "The duration over which the sample are calculated".to_owned(),
            labels: vec!["filer".to_owned(), "home_node".to_owned(), "aggregate".to_owned()],
            kind: MetricKind::Gauge,
        },
    );
    defs.push(
        MetricDef {
            id: MetricId::AggrThroughputRead,
            name: "netapp_aggregate_metric_throughput_read_bytes_per_second".to_owned(),
            help: "Performance metric for read I/O operations in bytes per second".to_owned(),
            labels: vec!["filer".to_owned(), "home_node".to_owned(), "aggregate".to_owned()],
            kind: MetricKind::Gauge,
        },
    );
    defs.push(
        MetricDef {
            id: MetricId::AggrThroughputWrite,
            name: "netapp_aggregate_metric_throughput_write_bytes_per_second".to_owned(),
            help: "Performance metric for write I/O operations in bytes per second".to_owned(),
            labels: vec!["filer".to_owned(), "home_node".to_owned(), "aggregate".to_owned()],
            kind: MetricKind::Gauge,
        },
    );
    defs.push(
        MetricDef {
            id: MetricId::AggrThroughputOther,
            name: "netapp_aggregate_metric_throughput_other_bytes_per_second".to_owned(),
            help: "Performance metric for other I/O operations in bytes per second".to_owned(),
            labels: vec!["filer".to_owned(), "home_node".to_owned(), "aggregate".to_owned()],
            kind: MetricKind::Gauge,
        },
    );
    defs.push(
        MetricDef {
            id: MetricId::AggrThroughputTotal,
            name: "netapp_aggregate_metric_throughput_total_bytes_per_second".to_owned(),
            help: "Performance metric for all I/O operations in bytes per second".to_owned(),
            labels: vec!["filer".to_owned(), "home_node".to_owned(), "aggregate".to_owned()],
            kind: MetricKind::Gauge,
        },
    );
    defs.push(
        MetricDef {
            id: MetricId::AggrLatencyRead,
            name: "netapp_aggregate_metric_latency_read_seconds".to_owned(),
            help: "The round trip latency in microseconds observed at the storage object for read operations".to_owned(),
            labels: vec!["filer".to_owned(), "home_node".to_owned(), "aggregate".to_owned()],
            kind: MetricKind::MicrosGauge,
        },
    );
    defs.push(
        MetricDef {
            id: MetricId::AggrLatencyWrite,
            name: "netapp_aggregate_metric_latency_write_seconds".to_owned(),
            help: "The round trip latency in microseconds observed at the storage object for write operations".to_owned(),
            labels: vec!["filer".to_owned(), "home_node".to_owned(), "aggregate".to_owned()],
            kind: MetricKind::MicrosGauge,
        },
    );
    defs.push(
        MetricDef {
            id: MetricId::AggrLatencyOther,
            name: "netapp_aggregate_metric_latency_other_seconds".to_owned(),
            help: "The round trip latency in microseconds observed at the storage object for other operations".to_owned(),
            labels: vec!["filer".to_owned(), "home_node".to_owned(), "aggregate".to_owned()],
            kind: MetricKind::MicrosGauge,
        },
    );
    defs.push(
        MetricDef {
            id: MetricId::AggrLatencyTotal,
            name: "netapp_aggregate_metric_latency_total_seconds".to_owned(),
            help: "The round trip latency in microseconds observed at the storage object for all operations".to_owned(),
            labels: vec!["filer".to_owned(), "home_node".to_owned(), "aggregate".to_owned()],
            kind: MetricKind::MicrosGauge,
        },
    );
    defs.push(
        MetricDef {
            id: MetricId::AggrIopsRead,
            name: "netapp_aggregate_metric_iops_read_iops_per_second".to_owned(),
            help: "The rate of I/O operations observed at the storage object for read operations".to_owned(),
            labels: vec!["filer".to_owned(), "home_node".to_owned(), "aggregate".to_owned()],
            kind: MetricKind::Gauge,
        },
    );
    defs.push(
        MetricDef {
            id: MetricId::AggrIopsWrite,
            name: "netapp_aggregate_metric_iops_write_iops_per_second".to_owned(),
            help: "The rate of I/O operations observed at the storage object for write operations".to_owned(),
            labels: vec!["filer".to_owned(), "home_node".to_owned(), "aggregate".to_owned()],
            kind: MetricKind::Gauge,
        },
    );
    defs.push(
        MetricDef {
            id: MetricId::AggrIopsOther,
            name: "netapp_aggregate_metric_iops_other_iops_per_second".to_owned(),
            help: "The rate of I/O operations observed at the storage object for other operations".to_owned(),
            labels: vec!["filer".to_owned(), "home_node".to_owned(), "aggregate".to_owned()],
            kind: MetricKind::Gauge,
        },
    );
    defs.push(
        MetricDef {
            id: MetricId::AggrIopsTotal,
            name: "netapp_aggregate_metric_iops_total_iops_per_second".to_owned(),
            help: "The rate of I/O operations observed at the storage object for all operations".to_owned(),
            labels: vec!["filer".to_owned(), "home_node".to_owned(), "aggregate".to_owned()],
            kind: MetricKind::Gauge,
        },
    );
    proof {
        assert(def_ids(defs@) =~= def_ids(old(defs)@) + spec_aggregate_metric_def_ids());
        assert(def_names(defs@) =~= def_names(old(defs)@) + spec_aggregate_metric_def_names());
        assert(def_kinds(defs@) =~= def_kinds(old(defs)@) + spec_aggregate_metric_def_kinds());
        assert(defs@.take(old(defs)@.len() as int) =~= old(defs)@);
    }
}

/// The identities register_volume_metrics registers, in order.
pub open spec fn spec_volume_metric_def_ids() -> Seq<MetricId> {
    seq![
        MetricId::VolState,
        MetricId::VolFilesMax,
        MetricId::VolFilesUsed,
        MetricId::VolErrorState,
        MetricId::VolAutosizeMin,
        MetricId::VolAutosizeMax,
        MetricId::VolAutosizeMode,
        MetricId::VolAutosizeShrinkThreshold,
        MetricId::VolAutosizeGrowThreshold,
        MetricId::VolIsObjectStore,
        MetricId::VolNumberOfAggregates,
        MetricId::VolFlexCacheEndpointType,
        MetricId::VolType,
        MetricId::VolCloudRetrievalPolicy,
        MetricId::VolQuotaState,
        MetricId::VolEfficiencyCompression,
        MetricId::VolEfficiencyCompaction,
        MetricId::VolEfficiencyDedupe,
        MetricId::VolEfficiencyCrossVolumeDedupe,
        MetricId::VolSampleDuration,
        MetricId::VolThroughputRead,
        MetricId::VolThroughputWrite,
        MetricId::VolThroughputOther,
        MetricId::VolThroughputTotal,
        MetricId::VolLatencyRead,
        MetricId::VolLatencyWrite,
        MetricId::VolLatencyOther,
        MetricId::VolLatencyTotal,
        MetricId::VolIopsRead,
        MetricId::VolIopsWrite,
        MetricId::VolIopsOther,
        MetricId::VolIopsTotal,
        MetricId::VolCloudSampleDuration,
        MetricId::VolCloudLatencyRead,
        MetricId::VolCloudLatencyWrite,
        MetricId::VolCloudLatencyOther,
        MetricId::VolCloudLatencyTotal,
        MetricId::VolCloudIopsRead,
        MetricId::VolCloudIopsWrite,
        MetricId::VolCloudIopsOther,
        MetricId::VolCloudIopsTotal,
        MetricId::VolFlexcacheSampleDuration,
        MetricId::VolFlexcacheCacheMissPercent,
        MetricId::VolAccessTimeEnabled,
        MetricId::VolQueueForEncryption,
        MetricId::VolSnaplockType,
        MetricId::VolSnaplockAppendModeEnabled,
        MetricId::VolSnaplockLitigationCount,
        MetricId::VolSnaplockUnspecifiedRetentionFiles,
        MetricId::VolSnaplockIsAuditLog,
        MetricId::VolSnaplockPrivilegedDelete,
        MetricId::VolMovementPercentComplete,
        MetricId::VolMovementCutoverWindow,
        MetricId::VolMovementTieringPolicy,
        MetricId::VolMovementState,
        MetricId::VolStyle,
        MetricId::VolEncryptionType,
        MetricId::VolEncryptionState,
        MetricId::VolEncryptionEnabled,
        MetricId::VolTieringPolicy,
        MetricId::VolTieringSupported,
        MetricId::VolTieringMinCoolingDays,
    ]
}

/// The exposition names register_volume_metrics registers, in order.
pub open spec fn spec_volume_metric_def_names() -> Seq<Seq<char>> {
    seq![
        "netapp_volume_state_info"@,
        "netapp_volumes_files_maximum"@,
        "netapp_volumes_files_used"@,
        "netapp_volume_error_state_info"@,
        "netapp_volume_autosize_minimum_bytes"@,
        "netapp_volume_autosize_maximum_bytes"@,
        "netapp_volume_autosize_mode_info"@,
        "netapp_volume_autosize_shrink_threshold_percent"@,
        "netapp_volume_autosize_grow_threshold_percent"@,
        "netapp_volume_is_object_store_info"@,
        "netapp_volume_number_of_aggregates"@,
        "netapp_volume_flex_cache_info"@,
        "netapp_volume_type_info"@,
        "netapp_volume_cloud_retrieval_info"@,
        "netapp_volume_quota_state_info"@,
        "netapp_volume_efficiency_compression_info"@,
        "netapp_volume_efficiency_compaction_info"@,
        "netapp_volume_efficiency_dedupe_info"@,
        "netapp_volume_efficiency_cross_volume_dedupe_info"@,
        "netapp_volume_metric_sample_duration_seconds"@,
        "netapp_volume_metric_throughput_read_bytes_per_second"@,
        "netapp_volume_metric_throughput_write_bytes_per_second"@,
        "netapp_volume_metric_throughput_other_bytes_per_second"@,
        "netapp_volume_metric_throughput_total_bytes_per_second"@,
        "netapp_volume_metric_latency_read_seconds"@,
        "netapp_volume_metric_latency_write_seconds"@,
        "netapp_volume_metric_latency_other_seconds"@,
        "netapp_volume_metric_latency_total_seconds"@,
        "netapp_volume_metric_iops_read_iops_per_second"@,
        "netapp_volume_metric_iops_write_iops_per_second"@,
        "netapp_volume_metric_iops_other_iops_per_second"@,
        "netapp_volume_metric_iops_total_iops_per_second"@,
        "netapp_volume_metric_sample_cloud_storage_duration_seconds"@,
        "netapp_volume_metric_cloud_latency_read_seconds"@,
        "netapp_volume_metric_cloud_latency_write_seconds"@,
        "netapp_volume_metric_cloud_latency_other_seconds"@,
        "netapp_volume_metric_cloud_latency_total_seconds"@,
        "netapp_volume_metric_cloud_iops_read_iops_per_second"@,
        "netapp_volume_metric_cloud_iops_write_iops_per_second"@,
        "netapp_volume_metric_cloud_iops_other_iops_per_second"@,
        "netapp_volume_metric_cloud_iops_total_iops_per_second"@,
        "netapp_volume_metric_flexcache_sample_duration_seconds"@,
        "netapp_volume_metric_flexcache_cache_miss_percent"@,
        "netapp_volume_metric_access_time_enabled"@,
        "netapp_volume_queued_for_encryption"@,
        "netapp_volume_snaplock_type_info"@,
        "netapp_volume_snaplock_append_mode_enabled"@,
        "netapp_volume_snaplock_litigation_count"@,
        "netapp_volume_snaplock_unspecified_retention_files"@,
        "netapp_volume_snaplock_is_audit_log"@,
        "netapp_volume_snaplock_privileged_delete"@,
        "netapp_volume_movemet_complete_percent"@,
        "netapp_volume_movement_cutover_window_seconds"@,
        "netapp_volume_movement_tiering_policy_info"@,
        "netapp_volume_movement_state_info"@,
        "netapp_volume_style"@,
        "netapp_volume_encryption_type_info"@,
        "netapp_volume_encryption_state_info"@,
        "netapp_volume_encryption_enabled"@,
        "netapp_volume_tiering_policy_info"@,
        "netapp_volume_tiering_supported"@,
        "netapp_volume_tiering_min_cooling_days"@,
    ]
}

/// The exposition kinds register_volume_metrics registers, in order.
pub open spec fn spec_volume_metric_def_kinds() -> Seq<MetricKind> {
    seq![
        MetricKind::Gauge,
        MetricKind::Gauge,
        MetricKind::Gauge,
        MetricKind::Gauge,
        MetricKind::Gauge,
        MetricKind::Gauge,
        MetricKind::Gauge,
        MetricKind::Gauge,
        MetricKind::Gauge,
        MetricKind::Gauge,
        MetricKind::Gauge,
        MetricKind::Gauge,
        MetricKind::Gauge,
        MetricKind::Gauge,
        MetricKind::Gauge,
        MetricKind::Gauge,
        MetricKind::Gauge,
        MetricKind::Gauge,
        MetricKind::Gauge,
        MetricKind::Gauge,
        MetricKind::Gauge,
        MetricKind::Gauge,
        MetricKind::Gauge,
        MetricKind::Gauge,
        MetricKind::MicrosGauge,
        MetricKind::MicrosGauge,
        MetricKind::MicrosGauge,
        MetricKind::MicrosGauge,
        MetricKind::Gauge,
        MetricKind::Gauge,
        MetricKind::Gauge,
        MetricKind::Gauge,
        MetricKind::Gauge,
        MetricKind::MicrosGauge,
        MetricKind::MicrosGauge,
        MetricKind::MicrosGauge,
        MetricKind::MicrosGauge,
        MetricKind::Gauge,
        MetricKind::Gauge,
        MetricKind::Gauge,
        MetricKind::Gauge,
        MetricKind::Gauge,
        MetricKind::Gauge,
        MetricKind::Gauge,
        MetricKind::Gauge,
        MetricKind::Gauge,
        MetricKind::Gauge,
        MetricKind::Gauge,
        MetricKind::Gauge,
        MetricKind::Gauge,
        MetricKind::Gauge,
        MetricKind::Gauge,
        MetricKind::Gauge,
        MetricKind::Gauge,
        MetricKind::Gauge,
        MetricKind::Gauge,
        MetricKind::Gauge,
        MetricKind::Gauge,
        MetricKind::Gauge,
        MetricKind::Gauge,
        MetricKind::Gauge,
        MetricKind::Gauge,
    ]
}
/// Register the descriptors of the volume collector's metrics.
#[verifier::rlimit(100)]
pub fn register_volume_metrics(defs: &mut Vec<MetricDef>)
    ensures
        def_ids(final(defs)@) == def_ids(old(defs)@) + spec_volume_metric_def_ids(),
        def_names(final(defs)@) == def_names(old(defs)@) + spec_volume_metric_def_names(),
        def_kinds(final(defs)@) == def_kinds(old(defs)@) + spec_volume_metric_def_kinds(),
        final(defs)@.take(old(defs)@.len() as int) == old(defs)@,
{
    defs.push(
        MetricDef {
            id: MetricId::VolState,
            name: "netapp_volume_state_info".to_owned(),
            help: "Volume state".to_owned(),
            labels: vec!["filer".to_owned(), "volume".to_owned(), "state".to_owned()],
            kind: MetricKind::Gauge,
        },
    );
    defs.push(
        MetricDef {
            id: MetricId::VolFilesMax,
            name: "netapp_volumes_files_maximum".to_owned(),
            help: "The maximum number of files for user-visible data allowed on the volume".to_owned(),
            labels: vec!["filer".to_owned(), "volume".to_owned()],
            kind: MetricKind::Gauge,
        },
    );
    defs.push(
        MetricDef {
            id: MetricId::VolFilesUsed,
            name: "netapp_volumes_files_used".to_owned(),
            help: "Number of files used for user-visible data on the volume".to_owned(),
            labels: vec!["filer".to_owned(), "volume".to_owned()],
            kind: MetricKind::Gauge,
        },
    );
    defs.push(
        MetricDef {
            id: MetricId::VolErrorState,
            name: "netapp_volume_error_state_info".to_owned(),
            help: "Reason why the volume is in an error state".to_owned(),
            labels: vec!["filer".to_owned(), "volume".to_owned(), "error_state".to_owned()],
            kind: MetricKind::Gauge,
        },
    );
    defs.push(
        MetricDef {
            id: MetricId::VolAutosizeMin,
            name: "netapp_volume_autosize_minimum_bytes".to_owned(),
            help: "Minimum size in bytes up to which the volume shrinks automatically".to_owned(),
            labels: vec!["filer".to_owned(), "volume".to_owned()],
            kind: MetricKind::Gauge,
        },
    );
    defs.push(
        MetricDef {
            id: MetricId::VolAutosizeMax,
            name: "netapp_volume_autosize_maximum_bytes".to_owned(),
            help: "Maximum size in bytes up to which a volume grows automatically".to_owned(),
            labels: vec!["filer".to_owned(), "volume".to_owned()],
            kind: MetricKind::Gauge,
        },
    );
    defs.push(
        MetricDef {
            id: MetricId::VolAutosizeMode,
            name: "netapp_volume_autosize_mode_info".to_owned(),
            help: "Autosize mode for the volume".to_owned(),
            labels: vec!["filer".to_owned(), "volume".to_owned(), "mode".to_owned()],
            kind: MetricKind::Gauge,
        },
    );
    defs.push(
        MetricDef {
            id: MetricId::VolAutosizeShrinkThreshold,
            name: "netapp_volume_autosize_shrink_threshold_percent".to_owned(),
            help: "Used space threshold for the automatic shrinkage of the volume".to_owned(),
            labels: vec!["filer".to_owned(), "volume".to_owned()],
            kind: MetricKind::Gauge,
        },
    );
    defs.push(
        MetricDef {
            id: MetricId::VolAutosizeGrowThreshold,
            name: "netapp_volume_autosize_grow_threshold_percent".to_owned(),
            help: "Used space threshold for the automatic growth of the volume".to_owned(),
            labels: vec!["filer".to_owned(), "volume".to_owned()],
            kind: MetricKind::Gauge,
        },
    );
    defs.push(
        MetricDef {
            id: MetricId::VolIsObjectStore,
            name: "netapp_volume_is_object_store_info".to_owned(),
            help: "Specifies whether the volume is provisioned for an object store server".to_owned(),
            labels: vec!["filer".to_owned(), "volume".to_owned()],
            kind: MetricKind::Gauge,
        },
    );
    defs.push(
        MetricDef {
            id: MetricId::VolNumberOfAggregates,
            name: "netapp_volume_number_of_aggregates".to_owned(),
            help: "Aggregate hosting the volume".to_owned(),
            labels: vec!["filer".to_owned(), "volume".to_owned()],
            kind: MetricKind::Gauge,
        },
    );
    defs.push(
        MetricDef {
            id: MetricId::VolFlexCacheEndpointType,
            name: "netapp_volume_flex_cache_info".to_owned(),
            help: "FlexCache endpoint type".to_owned(),
            labels: vec!["filer".to_owned(), "volume".to_owned(), "endpoint_type".to_owned()],
            kind: MetricKind::Gauge,
        },
    );
    defs.push(
        MetricDef {
            id: MetricId::VolType,
            name: "netapp_volume_type_info".to_owned(),
            help: "Type of the volume".to_owned(),
            labels: vec!["filer".to_owned(), "volume".to_owned(), "type".to_owned()],
            kind: MetricKind::Gauge,
        },
    );
    defs.push(
        MetricDef {
            id: MetricId::VolCloudRetrievalPolicy,
            name: "netapp_volume_cloud_retrieval_info".to_owned(),
            help: "Cloud retrieval policy for the volume".to_owned(),
            labels: vec!["filer".to_owned(), "volume".to_owned(), "policy".to_owned()],
            kind: MetricKind::Gauge,
        },
    );
    defs.push(
        MetricDef {
            id: MetricId::VolQuotaState,
            name: "netapp_volume_quota_state_info".to_owned(),
            help: "Quota state of the volume".to_owned(),
            labels: vec!["filer".to_owned(), "volume".to_owned(), "state".to_owned()],
            kind: MetricKind::Gauge,
        },
    );
    defs.push(
        MetricDef {
            id: MetricId::VolEfficiencyCompression,
            name: "netapp_volume_efficiency_compression_info".to_owned(),
            help: "Compression state of the volume".to_owned(),
            labels: vec!["filer".to_owned(), "volume".to_owned(), "state".to_owned()],
            kind: MetricKind::Gauge,
        },
    );
    defs.push(
        MetricDef {
            id: MetricId::VolEfficiencyCompaction,
            name: "netapp_volume_efficiency_compaction_info".to_owned(),
            help: "Compaction state of the volume".to_owned(),
            labels: vec!["filer".to_owned(), "volume".to_owned(), "state".to_owned()],
            kind: MetricKind::Gauge,
        },
    );
    defs.push(
        MetricDef {
            id: MetricId::VolEfficiencyDedupe,
            name: "netapp_volume_efficiency_dedupe_info".to_owned(),
            help: "Deduplication state of the volume".to_owned(),
            labels: vec!["filer".to_owned(), "volume".to_owned(), "state".to_owned()],
            kind: MetricKind::Gauge,
        },
    );
    defs.push(
        MetricDef {
            id: MetricId::VolEfficiencyCrossVolumeDedupe,
            name: "netapp_volume_efficiency_cross_volume_dedupe_info".to_owned(),
            help: "Cross volume deduplication state of the volume".to_owned(),
            labels: vec!["filer".to_owned(), "volume".to_owned(), "state".to_owned()],
            kind: MetricKind::Gauge,
        },
    );
    defs.push(
        MetricDef {
            id: MetricId::VolSampleDuration,
            name: "netapp_volume_metric_sample_duration_seconds".to_owned(),
            help: "The duration over which the sample are calculated".to_owned(),
            labels: vec!["filer".to_owned(), "volume".to_owned()],
            kind: MetricKind::Gauge,
        },
    );
    defs.push(
        MetricDef {
            id: MetricId::VolThroughputRead,
            name: "netapp_volume_metric_throughput_read_bytes_per_second".to_owned(),
            help: "Performance metric for read I/O operations in bytes per second".to_owned(),
            labels: vec!["filer".to_owned(), "volume".to_owned()],
            kind: MetricKind::Gauge,
        },
    );
    defs.push(
        MetricDef {
            id: MetricId::VolThroughputWrite,
            name: "netapp_volume_metric_throughput_write_bytes_per_second".to_owned(),
            help: "Performance metric for write I/O operations in bytes per second".to_owned(),
            labels: vec!["filer".to_owned(), "volume".to_owned()],
            kind: MetricKind::Gauge,
        },
    );
    defs.push(
        MetricDef {
            id: MetricId::VolThroughputOther,
            name: "netapp_volume_metric_throughput_other_bytes_per_second".to_owned(),
            help: "Performance metric for other I/O operations in bytes per second".to_owned(),
            labels: vec!["filer".to_owned(), "volume".to_owned()],
            kind: MetricKind::Gauge,
        },
    );
    defs.push(
        MetricDef {
            id: MetricId::VolThroughputTotal,
            name: "netapp_volume_metric_throughput_total_bytes_per_second".to_owned(),
            help: "Performance metric for all I/O operations in bytes per second".to_owned(),
            labels: vec!["filer".to_owned(), "volume".to_owned()],
            kind: MetricKind::Gauge,
        },
    );
    defs.push(
        MetricDef {
            id: MetricId::VolLatencyRead,
            name: "netapp_volume_metric_latency_read_seconds".to_owned(),
            help: "The round trip latency in microseconds observed at the storage object for read operations".to_owned(),
            labels: vec!["filer".to_owned(), "volume".to_owned()],
            kind: MetricKind::MicrosGauge,
        },
    );
    defs.push(
        MetricDef {
            id: MetricId::VolLatencyWrite,
            name: "netapp_volume_metric_latency_write_seconds".to_owned(),
            help: "The round trip latency in microseconds observed at the storage object for write operations".to_owned(),
            labels: vec!["filer".to_owned(), "volume".to_owned()],
            kind: MetricKind::MicrosGauge,
        },
    );
    defs.push(
        MetricDef {
            id: MetricId::VolLatencyOther,
            name: "netapp_volume_metric_latency_other_seconds".to_owned(),
            help: "The round trip latency in microseconds observed at the storage object for other operations".to_owned(),
            labels: vec!["filer".to_owned(), "volume".to_owned()],
            kind: MetricKind::MicrosGauge,
        },
    );
    defs.push(
        MetricDef {
            id: MetricId::VolLatencyTotal,
            name: "netapp_volume_metric_latency_total_seconds".to_owned(),
            help: "The round trip latency in microseconds observed at the storage object for all operations".to_owned(),
            labels: vec!["filer".to_owned(), "volume".to_owned()],
            kind: MetricKind::MicrosGauge,
        },
    );
    defs.push(
        MetricDef {
            id: MetricId::VolIopsRead,
            name: "netapp_volume_metric_iops_read_iops_per_second".to_owned(),
            help: "The rate of I/O operations observed at the storage object for read operations".to_owned(),
            labels: vec!["filer".to_owned(), "volume".to_owned()],
            kind: MetricKind::Gauge,
        },
    );
    defs.push(
        MetricDef {
            id: MetricId::VolIopsWrite,
            name: "netapp_volume_metric_iops_write_iops_per_second".to_owned(),
            help: "The rate of I/O operations observed at the storage object for write operations".to_owned(),
            labels: vec!["filer".to_owned(), "volume".to_owned()],
            kind: MetricKind::Gauge,
        },
    );
    defs.push(
        MetricDef {
            id: MetricId::VolIopsOther,
            name: "netapp_volume_metric_iops_other_iops_per_second".to_owned(),
            help: "The rate of I/O operations observed at the storage object for other operations".to_owned(),
            labels: vec!["filer".to_owned(), "volume".to_owned()],
            kind: MetricKind::Gauge,
        },
    );
    defs.push(
        MetricDef {
            id: MetricId::VolIopsTotal,
            name: "netapp_volume_metric_iops_total_iops_per_second".to_owned(),
            help: "The rate of I/O operations observed at the storage object for all operations".to_owned(),
            labels: vec!["filer".to_owned(), "volume".to_owned()],
            kind: MetricKind::Gauge,
        },
    );
    defs.push(
        MetricDef {
            id: MetricId::VolCloudSampleDuration,
            name: "netapp_volume_metric_sample_cloud_storage_duration_seconds".to_owned(),
            help: "The duration over which the sample are calculated".to_owned(),
            labels: vec!["filer".to_owned(), "volume".to_owned()],
            kind: MetricKind::Gauge,
        },
    );
    defs.push(
        MetricDef {
            id: MetricId::VolCloudLatencyRead,
            name: "netapp_volume_metric_cloud_latency_read_seconds".to_owned(),
            help: "The round trip latency in microseconds observed at the cloud storage object for read operations".to_owned(),
            labels: vec!["filer".to_owned(), "volume".to_owned()],
            kind: MetricKind::MicrosGauge,
        },
    );
    defs.push(
        MetricDef {
            id: MetricId::VolCloudLatencyWrite,
            name: "netapp_volume_metric_cloud_latency_write_seconds".to_owned(),
            help: "The round trip latency in microseconds observed at the cloud storage object for write operations".to_owned(),
            labels: vec!["filer".to_owned(), "volume".to_owned()],
            kind: MetricKind::MicrosGauge,
        },
    );
    defs.push(
        MetricDef {
            id: MetricId::VolCloudLatencyOther,
            name: "netapp_volume_metric_cloud_latency_other_seconds".to_owned(),
            help: "The round trip latency in microseconds observed at the cloud storage object for other operations".to_owned(),
            labels: vec!["filer".to_owned(), "volume".to_owned()],
            kind: MetricKind::MicrosGauge,
        },
    );
    defs.push(
        MetricDef {
            id: MetricId::VolCloudLatencyTotal,
            name: "netapp_volume_metric_cloud_latency_total_seconds".to_owned(),
            help: "The round trip latency in microseconds observed at the cloud storage object for all operations".to_owned(),
            labels: vec!["filer".to_owned(), "volume".to_owned()],
            kind: MetricKind::MicrosGauge,
        },
    );
    defs.push(
        MetricDef {
            id: MetricId::VolCloudIopsRead,
            name: "netapp_volume_metric_cloud_iops_read_iops_per_second".to_owned(),
            help: "The rate of I/O operations observed at the cloud storage object for read operations".to_owned(),
            labels: vec!["filer".to_owned(), "volume".to_owned()],
            kind: MetricKind::Gauge,
        },
    );
    defs.push(
        MetricDef {
            id: MetricId::VolCloudIopsWrite,
            name: "netapp_volume_metric_cloud_iops_write_iops_per_second".to_owned(),
            help: "The rate of I/O operations observed at the cloud storage object for write operations".to_owned(),
            labels: vec!["filer".to_owned(), "volume".to_owned()],
            kind: MetricKind::Gauge,
        },
    );
    defs.push(
        MetricDef {
            id: MetricId::VolCloudIopsOther,
            name: "netapp_volume_metric_cloud_iops_other_iops_per_second".to_owned(),
            help: "The rate of I/O operations observed at the cloud storage object for other operations".to_owned(),
            labels: vec!["filer".to_owned(), "volume".to_owned()],
            kind: MetricKind::Gauge,
        },
    );
    defs.push(
        MetricDef {
            id: MetricId::VolCloudIopsTotal,
            name: "netapp_volume_metric_cloud_iops_total_iops_per_second".to_owned(),
            help: "The rate of I/O operations observed at the cloud storage object for all operations".to_owned(),
            labels: vec!["filer".to_owned(), "volume".to_owned()],
            kind: MetricKind::Gauge,
        },
    );
    defs.push(
        MetricDef {
            id: MetricId::VolFlexcacheSampleDuration,
            name: "netapp_volume_metric_flexcache_sample_duration_seconds".to_owned(),
            help: "The duration over which the sample are calculated".to_owned(),
            labels: vec!["filer".to_owned(), "volume".to_owned()],
            kind: MetricKind::Gauge,
        },
    );
    defs.push(
        MetricDef {
            id: MetricId::VolFlexcacheCacheMissPercent,
            name: "netapp_volume_metric_flexcache_cache_miss_percent".to_owned(),
            help: "Cache miss percentage".to_owned(),
            labels: vec!["filer".to_owned(), "volume".to_owned()],
            kind: MetricKind::Gauge,
        },
    );
    defs.push(
        MetricDef {
            id: MetricId::VolAccessTimeEnabled,
            name: "netapp_volume_metric_access_time_enabled".to_owned(),
            help: "Indicates whether or not access time updates are enabled on the volume".to_owned(),
            labels: vec!["filer".to_owned(), "volume".to_owned()],
            kind: MetricKind::Gauge,
        },
    );
    defs.push(
        MetricDef {
            id: MetricId::VolQueueForEncryption,
            name: "netapp_volume_queued_for_encryption".to_owned(),
            help: "Specifies whether the volume is queued for encryption".to_owned(),
            labels: vec!["filer".to_owned(), "volume".to_owned()],
            kind: MetricKind::Gauge,
        },
    );
    defs.push(
        MetricDef {
            id: MetricId::VolSnaplockType,
            name: "netapp_volume_snaplock_type_info".to_owned(),
            help: "The SnapLock type of the volume".to_owned(),
            labels: vec!["filer".to_owned(), "volume".to_owned(), "type".to_owned()],
            kind: MetricKind::Gauge,
        },
    );
    defs.push(
        MetricDef {
            id: MetricId::VolSnaplockAppendModeEnabled,
            name: "netapp_volume_snaplock_append_mode_enabled".to_owned(),
            help: "Specifies if the volume append mode is enabled or disabled".to_owned(),
            labels: vec!["filer".to_owned(), "volume".to_owned()],
            kind: MetricKind::Gauge,
        },
    );
    defs.push(
        MetricDef {
            id: MetricId::VolSnaplockLitigationCount,
            name: "netapp_volume_snaplock_litigation_count".to_owned(),
            help: "Litigation count indicates the number of active legal-holds on the volume".to_owned(),
            labels: vec!["filer".to_owned(), "volume".to_owned()],
            kind: MetricKind::Gauge,
        },
    );
    defs.push(
        MetricDef {
            id: MetricId::VolSnaplockUnspecifiedRetentionFiles,
            name: "netapp_volume_snaplock_unspecified_retention_files".to_owned(),
            help: "Indicates the number of files with an unspecified retention time in the volume".to_owned(),
            labels: vec!["filer".to_owned(), "volume".to_owned()],
            kind: MetricKind::Gauge,
        },
    );
    defs.push(
        MetricDef {
            id: MetricId::VolSnaplockIsAuditLog,
            name: "netapp_volume_snaplock_is_audit_log".to_owned(),
            help: "Indicates if this volume has been configured as SnapLock audit log volume for the SVM".to_owned(),
            labels: vec!["filer".to_owned(), "volume".to_owned()],
            kind: MetricKind::Gauge,
        },
    );
    defs.push(
        MetricDef {
            id: MetricId::VolSnaplockPrivilegedDelete,
            name: "netapp_volume_snaplock_privileged_delete".to_owned(),
            help: "Specifies the privileged-delete attribute of a SnapLock volume".to_owned(),
            labels: vec!["filer".to_owned(), "volume".to_owned(), "type".to_owned()],
            kind: MetricKind::Gauge,
        },
    );
    defs.push(
        MetricDef {
            id: MetricId::VolMovementPercentComplete,
            name: "netapp_volume_movemet_complete_percent".to_owned(),
            help: "Completion percentage of volume movement".to_owned(),
            labels: vec!["filer".to_owned(), "volume".to_owned()],
            kind: MetricKind::Gauge,
        },
    );
    defs.push(
        MetricDef {
            id: MetricId::VolMovementCutoverWindow,
            name: "netapp_volume_movement_cutover_window_seconds".to_owned(),
            help: "Time window in seconds for cutover".to_owned(),
            labels: vec!["filer".to_owned(), "volume".to_owned()],
            kind: MetricKind::Gauge,
        },
    );
    defs.push(
        MetricDef {
            id: MetricId::VolMovementTieringPolicy,
            name: "netapp_volume_movement_tiering_policy_info".to_owned(),
            help: "Tiering policy for FabricPool".to_owned(),
            labels: vec!["filer".to_owned(), "volume".to_owned(), "tiering_policy".to_owned()],
            kind: MetricKind::Gauge,
        },
    );
    defs.push(
        MetricDef {
            id: MetricId::VolMovementState,
            name: "netapp_volume_movement_state_info".to_owned(),
            help: "State of volume move operation".to_owned(),
            labels: vec!["filer".to_owned(), "volume".to_owned(), "state".to_owned()],
            kind: MetricKind::Gauge,
        },
    );
    defs.push(
        MetricDef {
            id: MetricId::VolStyle,
            name: "netapp_volume_style".to_owned(),
            help: "The style of the volume".to_owned(),
            labels: vec!["filer".to_owned(), "volume".to_owned(), "style".to_owned()],
            kind: MetricKind::Gauge,
        },
    );
    defs.push(
        MetricDef {
            id: MetricId::VolEncryptionType,
            name: "netapp_volume_encryption_type_info".to_owned(),
            help: "Volume encryption type".to_owned(),
            labels: vec!["filer".to_owned(), "volume".to_owned(), "type".to_owned()],
            kind: MetricKind::Gauge,
        },
    );
    defs.push(
        MetricDef {
            id: MetricId::VolEncryptionState,
            name: "netapp_volume_encryption_state_info".to_owned(),
            help: "Volume encryption state".to_owned(),
            labels: vec!["filer".to_owned(), "volume".to_owned(), "state".to_owned()],
            kind: MetricKind::Gauge,
        },
    );
    defs.push(
        MetricDef {
            id: MetricId::VolEncryptionEnabled,
            name: "netapp_volume_encryption_enabled".to_owned(),
            help: "Volume encryption state".to_owned(),
            labels: vec!["filer".to_owned(), "volume".to_owned()],
            kind: MetricKind::Gauge,
        },
    );
    defs.push(
        MetricDef {
            id: MetricId::VolTieringPolicy,
            name: "netapp_volume_tiering_policy_info".to_owned(),
            help: "Policy that determines whether the user data blocks of a volume in a FabricPool will be tiered to the cloud store when they become cold".to_owned(),
            labels: vec!["filer".to_owned(), "volume".to_owned(), "policy".to_owned()],
            kind: MetricKind::Gauge,
        },
    );
    defs.push(
        MetricDef {
            id: MetricId::VolTieringSupported,
            name: "netapp_volume_tiering_supported".to_owned(),
            help: "Whether or not FabricPools are selected when provisioning a FlexGroup without specifying aggregates.name or aggregates.uuid".to_owned(),
            labels: vec!["filer".to_owned(), "volume".to_owned()],
            kind: MetricKind::Gauge,
        },
    );
    defs.push(
        MetricDef {
            id: MetricId::VolTieringMinCoolingDays,
            name: "netapp_volume_tiering_min_cooling_days".to_owned(),
            help: "Minimum number of days that user data blocks of the volume must be cooled before they can be considered cold and tiered out to the cloud tier".to_owned(),
            labels: vec!["filer".to_owned(), "volume".to_owned()],
            kind: MetricKind::Gauge,
        },
    );
    proof {
        assert(def_ids(defs@) =~= def_ids(old(defs)@) + spec_volume_metric_def_ids());
        assert(def_names(defs@) =~= def_names(old(defs)@) + spec_volume_metric_def_names());
        assert(def_kinds(defs@) =~= def_kinds(old(defs)@) + spec_volume_metric_def_kinds());
        assert(defs@.take(old(defs)@.len() as int) =~= old(defs)@);
    }
}

/// The identities register_quota_metrics registers, in order.
pub open spec fn spec_quota_metric_def_ids() -> Seq<MetricId> {
    seq![
        MetricId::TreeQuotaSpaceUsed,
        MetricId::TreeQuotaSpaceHardLimitPercent,
        MetricId::TreeQuotaSpaceSoftLimitPercent,
        MetricId::TreeQuotaSpaceHardLimit,
        MetricId::TreeQuotaSpaceSoftLimit,
        MetricId::TreeQuotaFilesUsed,
        MetricId::TreeQuotaFilesHardLimitPercent,
        MetricId::TreeQuotaFilesSoftLimitPercent,
        MetricId::TreeQuotaFilesHardLimit,
        MetricId::TreeQuotaFilesSoftLimit,
        MetricId::GroupQuotaSpaceUsed,
        MetricId::GroupQuotaSpaceHardLimitPercent,
        MetricId::GroupQuotaSpaceSoftLimitPercent,
        MetricId::GroupQuotaSpaceHardLimit,
        MetricId::GroupQuotaSpaceSoftLimit,
        MetricId::GroupQuotaFilesUsed,
        MetricId::GroupQuotaFilesHardLimitPercent,
        MetricId::GroupQuotaFilesSoftLimitPercent,
        MetricId::GroupQuotaFilesHardLimit,
        MetricId::GroupQuotaFilesSoftLimit,
        MetricId::UserQuotaSpaceUsed,
        MetricId::UserQuotaSpaceHardLimitPercent,
        MetricId::UserQuotaSpaceSoftLimitPercent,
        MetricId::UserQuotaSpaceHardLimit,
        MetricId::UserQuotaSpaceSoftLimit,
        MetricId::UserQuotaFilesUsed,
        MetricId::UserQuotaFilesHardLimitPercent,
        MetricId::UserQuotaFilesSoftLimitPercent,
        MetricId::UserQuotaFilesHardLimit,
        MetricId::UserQuotaFilesSoftLimit,
    ]
}

/// The exposition names register_quota_metrics registers, in order.
pub open spec fn spec_quota_metric_def_names() -> Seq<Seq<char>> {
    seq![
        "netapp_tree_quota_space_used_bytes"@,
        "netapp_tree_quota_space_hard_limit_percent"@,
        "netapp_tree_quota_space_soft_limit_percent"@,
        "netapp_tree_quota_space_hard_limit_bytes"@,
        "netapp_tree_quota_space_soft_limit_bytes"@,
        "netapp_tree_quota_files_used"@,
        "netapp_tree_quota_files_hard_limit_percent"@,
        "netapp_tree_quota_files_soft_limit_percent"@,
        "netapp_tree_quota_files_hard_limit"@,
        "netapp_tree_quota_files_soft_limit"@,
        "netapp_group_quota_space_used_bytes"@,
        "netapp_group_quota_space_hard_limit_percent"@,
        "netapp_group_quota_space_soft_limit_percent"@,
        "netapp_group_quota_space_hard_limit_bytes"@,
        "netapp_group_quota_space_soft_limit_bytes"@,
        "netapp_group_quota_files_used"@,
        "netapp_group_quota_files_hard_limit_percent"@,
        "netapp_group_quota_files_soft_limit_percent"@,
        "netapp_group_quota_files_hard_limit"@,
        "netapp_group_quota_files_soft_limit"@,
        "netapp_user_quota_space_used_bytes"@,
        "netapp_user_quota_space_hard_limit_percent"@,
        "netapp_user_quota_space_soft_limit_percent"@,
        "netapp_user_quota_space_hard_limit_bytes"@,
        "netapp_user_quota_space_soft_limit_bytes"@,
        "netapp_user_quota_files_used"@,
        "netapp_user_quota_files_hard_limit_percent"@,
        "netapp_user_quota_files_soft_limit_percent"@,
        "netapp_user_quota_files_hard_limit"@,
        "netapp_user_quota_files_soft_limit"@,
    ]
}

/// The exposition kinds register_quota_metrics registers, in order.
pub open spec fn spec_quota_metric_def_kinds() -> Seq<MetricKind> {
    seq![
        MetricKind::Gauge,
        MetricKind::Gauge,
        MetricKind::Gauge,
        MetricKind::Gauge,
        MetricKind::Gauge,
        MetricKind::Gauge,
        MetricKind::Gauge,
        MetricKind::Gauge,
        MetricKind::Gauge,
        MetricKind::Gauge,
        MetricKind::Gauge,
        MetricKind::Gauge,
        MetricKind::Gauge,
        MetricKind::Gauge,
        MetricKind::Gauge,
        MetricKind::Gauge,
        MetricKind::Gauge,
        MetricKind::Gauge,
        MetricKind::Gauge,
        MetricKind::Gauge,
        MetricKind::Gauge,
        MetricKind::Gauge,
        MetricKind::Gauge,
        MetricKind::Gauge,
        MetricKind::Gauge,
        MetricKind::Gauge,
        MetricKind::Gauge,
        MetricKind::Gauge,
        MetricKind::Gauge,
        MetricKind::Gauge,
    ]
}
/// Register the descriptors of the quota collectors' metrics (tree, group and user).
#[verifier::rlimit(100)]
pub fn register_quota_metrics(defs: &mut Vec<MetricDef>)
    ensures
        def_ids(final(defs)@) == def_ids(old(defs)@) + spec_quota_metric_def_ids(),
        def_names(final(defs)@) == def_names(old(defs)@) + spec_quota_metric_def_names(),
        def_kinds(final(defs)@) == def_kinds(old(defs)@) + spec_quota_metric_def_kinds(),
        final(defs)@.take(old(defs)@.len() as int) == old(defs)@,
{
    defs.push(
        MetricDef {
            id: MetricId::TreeQuotaSpaceUsed,
            name: "netapp_tree_quota_space_used_bytes".to_owned(),
            help: "Total space used".to_owned(),
            labels: vec!["filer".to_owned(), "volume".to_owned(), "name".to_owned()],
            kind: MetricKind::Gauge,
        },
    );
    defs.push(
        MetricDef {
            id: MetricId::TreeQuotaSpaceHardLimitPercent,
            name: "netapp_tree_quota_space_hard_limit_percent".to_owned(),
            help: "Total space used as a percentage of space hard limit".to_owned(),
            labels: vec!["filer".to_owned(), "volume".to_owned(), "name".to_owned()],
            kind: MetricKind::Gauge,
        },
    );
    defs.push(
        MetricDef {
            id: MetricId::TreeQuotaSpaceSoftLimitPercent,
            name: "netapp_tree_quota_space_soft_limit_percent".to_owned(),
            help: "Total space used as a percentage of space soft limit".to_owned(),
            labels: vec!["filer".to_owned(), "volume".to_owned(), "name".to_owned()],
            kind: MetricKind::Gauge,
        },
    );
    defs.push(
        MetricDef {
            id: MetricId::TreeQuotaSpaceHardLimit,
            name: "netapp_tree_quota_space_hard_limit_bytes".to_owned(),
            help: "Space hard limit in bytes".to_owned(),
            labels: vec!["filer".to_owned(), "volume".to_owned(), "name".to_owned()],
            kind: MetricKind::Gauge,
        },
    );
    defs.push(
        MetricDef {
            id: MetricId::TreeQuotaSpaceSoftLimit,
            name: "netapp_tree_quota_space_soft_limit_bytes".to_owned(),
            help: "Space soft limit in bytes".to_owned(),
            labels: vec!["filer".to_owned(), "volume".to_owned(), "name".to_owned()],
            kind: MetricKind::Gauge,
        },
    );
    defs.push(
        MetricDef {
            id: MetricId::TreeQuotaFilesUsed,
            name: "netapp_tree_quota_files_used".to_owned(),
            help: "Total files used".to_owned(),
            labels: vec!["filer".to_owned(), "volume".to_owned(), "name".to_owned()],
            kind: MetricKind::Gauge,
        },
    );
    defs.push(
        MetricDef {
            id: MetricId::TreeQuotaFilesHardLimitPercent,
            name: "netapp_tree_quota_files_hard_limit_percent".to_owned(),
            help: "Total files used as a percentage of files hard limit".to_owned(),
            labels: vec!["filer".to_owned(), "volume".to_owned(), "name".to_owned()],
            kind: MetricKind::Gauge,
        },
    );
    defs.push(
        MetricDef {
            id: MetricId::TreeQuotaFilesSoftLimitPercent,
            name: "netapp_tree_quota_files_soft_limit_percent".to_owned(),
            help: "Total files used as a percentage of files soft limit".to_owned(),
            labels: vec!["filer".to_owned(), "volume".to_owned(), "name".to_owned()],
            kind: MetricKind::Gauge,
        },
    );
    defs.push(
        MetricDef {
            id: MetricId::TreeQuotaFilesHardLimit,
            name: "netapp_tree_quota_files_hard_limit".to_owned(),
            help: "Files hard limit".to_owned(),
            labels: vec!["filer".to_owned(), "volume".to_owned(), "name".to_owned()],
            kind: MetricKind::Gauge,
        },
    );
    defs.push(
        MetricDef {
            id: MetricId::TreeQuotaFilesSoftLimit,
            name: "netapp_tree_quota_files_soft_limit".to_owned(),
            help: "Files soft limit".to_owned(),
            labels: vec!["filer".to_owned(), "volume".to_owned(), "name".to_owned()],
            kind: MetricKind::Gauge,
        },
    );
    defs.push(
        MetricDef {
            id: MetricId::GroupQuotaSpaceUsed,
            name: "netapp_group_quota_space_used_bytes".to_owned(),
            help: "Total space used".to_owned(),
            labels: vec!["filer".to_owned(), "volume".to_owned(), "name".to_owned(), "group".to_owned()],
            kind: MetricKind::Gauge,
        },
    );
    defs.push(
        MetricDef {
            id: MetricId::GroupQuotaSpaceHardLimitPercent,
            name: "netapp_group_quota_space_hard_limit_percent".to_owned(),
            help: "Total space used as a percentage of space hard limit".to_owned(),
            labels: vec!["filer".to_owned(), "volume".to_owned(), "name".to_owned(), "group".to_owned()],
            kind: MetricKind::Gauge,
        },
    );
    defs.push(
        MetricDef {
            id: MetricId::GroupQuotaSpaceSoftLimitPercent,
            name: "netapp_group_quota_space_soft_limit_percent".to_owned(),
            help: "Total space used as a percentage of space soft limit".to_owned(),
            labels: vec!["filer".to_owned(), "volume".to_owned(), "name".to_owned(), "group".to_owned()],
            kind: MetricKind::Gauge,
        },
    );
    defs.push(
        MetricDef {
            id: MetricId::GroupQuotaSpaceHardLimit,
            name: "netapp_group_quota_space_hard_limit_bytes".to_owned(),
            help: "Space hard limit in bytes".to_owned(),
            labels: vec!["filer".to_owned(), "volume".to_owned(), "name".to_owned(), "group".to_owned()],
            kind: MetricKind::Gauge,
        },
    );
    defs.push(
        MetricDef {
            id: MetricId::GroupQuotaSpaceSoftLimit,
            name: "netapp_group_quota_space_soft_limit_bytes".to_owned(),
            help: "Space soft limit in bytes".to_owned(),
            labels: vec!["filer".to_owned(), "volume".to_owned(), "name".to_owned(), "group".to_owned()],
            kind: MetricKind::Gauge,
        },
    );
    defs.push(
        MetricDef {
            id: MetricId::GroupQuotaFilesUsed,
            name: "netapp_group_quota_files_used".to_owned(),
            help: "Total files used".to_owned(),
            labels: vec!["filer".to_owned(), "volume".to_owned(), "name".to_owned(), "group".to_owned()],
            kind: MetricKind::Gauge,
        },
    );
    defs.push(
        MetricDef {
            id: MetricId::GroupQuotaFilesHardLimitPercent,
            name: "netapp_group_quota_files_hard_limit_percent".to_owned(),
            help: "Total files used as a percentage of files hard limit".to_owned(),
            labels: vec!["filer".to_owned(), "volume".to_owned(), "name".to_owned(), "group".to_owned()],
            kind: MetricKind::Gauge,
        },
    );
    defs.push(
        MetricDef {
            id: MetricId::GroupQuotaFilesSoftLimitPercent,
            name: "netapp_group_quota_files_soft_limit_percent".to_owned(),
            help: "Total files used as a percentage of files soft limit".to_owned(),
            labels: vec!["filer".to_owned(), "volume".to_owned(), "name".to_owned(), "group".to_owned()],
            kind: MetricKind::Gauge,
        },
    );
    defs.push(
        MetricDef {
            id: MetricId::GroupQuotaFilesHardLimit,
            name: "netapp_group_quota_files_hard_limit".to_owned(),
            help: "Files hard limit".to_owned(),
            labels: vec!["filer".to_owned(), "volume".to_owned(), "name".to_owned(), "group".to_owned()],
            kind: MetricKind::Gauge,
        },
    );
    defs.push(
        MetricDef {
            id: MetricId::GroupQuotaFilesSoftLimit,
            name: "netapp_group_quota_files_soft_limit".to_owned(),
            help: "Files soft limit".to_owned(),
            labels: vec!["filer".to_owned(), "volume".to_owned(), "name".to_owned(), "group".to_owned()],
            kind: MetricKind::Gauge,
        },
    );
    defs.push(
        MetricDef {
            id: MetricId::UserQuotaSpaceUsed,
            name: "netapp_user_quota_space_used_bytes".to_owned(),
            help: "Total space used".to_owned(),
            labels: vec!["filer".to_owned(), "volume".to_owned(), "name".to_owned(), "user".to_owned()],
            kind: MetricKind::Gauge,
        },
    );
    defs.push(
        MetricDef {
            id: MetricId::UserQuotaSpaceHardLimitPercent,
            name: "netapp_user_quota_space_hard_limit_percent".to_owned(),
            help: "Total space used as a percentage of space hard limit".to_owned(),
            labels: vec!["filer".to_owned(), "volume".to_owned(), "name".to_owned(), "user".to_owned()],
            kind: MetricKind::Gauge,
        },
    );
    defs.push(
        MetricDef {
            id: MetricId::UserQuotaSpaceSoftLimitPercent,
            name: "netapp_user_quota_space_soft_limit_percent".to_owned(),
            help: "Total space used as a percentage of space soft limit".to_owned(),
            labels: vec!["filer".to_owned(), "volume".to_owned(), "name".to_owned(), "user".to_owned()],
            kind: MetricKind::Gauge,
        },
    );
    defs.push(
        MetricDef {
            id: MetricId::UserQuotaSpaceHardLimit,
            name: "netapp_user_quota_space_hard_limit_bytes".to_owned(),
            help: "Space hard limit in bytes".to_owned(),
            labels: vec!["filer".to_owned(), "volume".to_owned(), "name".to_owned(), "user".to_owned()],
            kind: MetricKind::Gauge,
        },
    );
    defs.push(
        MetricDef {
            id: MetricId::UserQuotaSpaceSoftLimit,
            name: "netapp_user_quota_space_soft_limit_bytes".to_owned(),
            help: "Space soft limit in bytes".to_owned(),
            labels: vec!["filer".to_owned(), "volume".to_owned(), "name".to_owned(), "user".to_owned()],
            kind: MetricKind::Gauge,
        },
    );
    defs.push(
        MetricDef {
            id: MetricId::UserQuotaFilesUsed,
            name: "netapp_user_quota_files_used".to_owned(),
            help: "Total files used".to_owned(),
            labels: vec!["filer".to_owned(), "volume".to_owned(), "name".to_owned(), "user".to_owned()],
            kind: MetricKind::Gauge,
        },
    );
    defs.push(
        MetricDef {
            id: MetricId::UserQuotaFilesHardLimitPercent,
            name: "netapp_user_quota_files_hard_limit_percent".to_owned(),
            help: "Total files used as a percentage of files hard limit".to_owned(),
            labels: vec!["filer".to_owned(), "volume".to_owned(), "name".to_owned(), "user".to_owned()],
            kind: MetricKind::Gauge,
        },
    );
    defs.push(
        MetricDef {
            id: MetricId::UserQuotaFilesSoftLimitPercent,
            name: "netapp_user_quota_files_soft_limit_percent".to_owned(),
            help: "Total files used as a percentage of files soft limit".to_owned(),
            labels: vec!["filer".to_owned(), "volume".to_owned(), "name".to_owned(), "user".to_owned()],
            kind: MetricKind::Gauge,
        },
    );
    defs.push(
        MetricDef {
            id: MetricId::UserQuotaFilesHardLimit,
            name: "netapp_user_quota_files_hard_limit".to_owned(),
            help: "Files hard limit".to_owned(),
            labels: vec!["filer".to_owned(), "volume".to_owned(), "name".to_owned(), "user".to_owned()],
            kind: MetricKind::Gauge,
        },
    );
    defs.push(
        MetricDef {
            id: MetricId::UserQuotaFilesSoftLimit,
            name: "netapp_user_quota_files_soft_limit".to_owned(),
            help: "Files soft limit".to_owned(),
            labels: vec!["filer".to_owned(), "volume".to_owned(), "name".to_owned(), "user".to_owned()],
            kind: MetricKind::Gauge,
        },
    );
    proof {
        assert(def_ids(defs@) =~= def_ids(old(defs)@) + spec_quota_metric_def_ids());
        assert(def_names(defs@) =~= def_names(old(defs)@) + spec_quota_metric_def_names());
        assert(def_kinds(defs@) =~= def_kinds(old(defs)@) + spec_quota_metric_def_kinds());
        assert(defs@.take(old(defs)@.len() as int) =~= old(defs)@);
    }
}

/// The identities register_chassis_metrics registers, in order.
pub open spec fn spec_chassis_metric_def_ids() -> Seq<MetricId> {
    seq![
        MetricId::ChassisState,
        MetricId::ChassisShelves,
        MetricId::ChassisNodes,
        MetricId::ChassisFruState,
        MetricId::ChassisUsbSupported,
        MetricId::ChassisUsbEnabled,
        MetricId::ChassisUsbPortConnected,
    ]
}

/// The exposition names register_chassis_metrics registers, in order.
pub open spec fn spec_chassis_metric_def_names() -> Seq<Seq<char>> {
    seq![
        "netapp_cluster_chassis_state_info"@,
        "netapp_cluster_shassis_shelves"@,
        "netapp_cluster_shassis_nodes"@,
        "netapp_cluster_chassis_fru_state_info"@,
        "netapp_cluster_chassis_usb_supported"@,
        "netapp_cluster_chassis_usb_enabled"@,
        "netapp_cluster_chassis_usb_port_info"@,
    ]
}

/// The exposition kinds register_chassis_metrics registers, in order.
pub open spec fn spec_chassis_metric_def_kinds() -> Seq<MetricKind> {
    seq![
        MetricKind::Gauge,
        MetricKind::Gauge,
        MetricKind::Gauge,
        MetricKind::Gauge,
        MetricKind::Gauge,
        MetricKind::Gauge,
        MetricKind::Gauge,
    ]
}
/// Register the descriptors of the chassis collector's metrics.
#[verifier::rlimit(100)]
pub fn register_chassis_metrics(defs: &mut Vec<MetricDef>)
    ensures
        def_ids(final(defs)@) == def_ids(old(defs)@) + spec_chassis_metric_def_ids(),
        def_names(final(defs)@) == def_names(old(defs)@) + spec_chassis_metric_def_names(),
        def_kinds(final(defs)@) == def_kinds(old(defs)@) + spec_chassis_metric_def_kinds(),
        final(defs)@.take(old(defs)@.len() as int) == old(defs)@,
{
    defs.push(
        MetricDef {
            id: MetricId::ChassisState,
            name: "netapp_cluster_chassis_state_info".to_owned(),
            help: "State of chassis".to_owned(),
            labels: vec!["filer".to_owned(), "chassis".to_owned(), "state".to_owned()],
            kind: MetricKind::Gauge,
        },
    );
    defs.push(
        MetricDef {
            id: MetricId::ChassisShelves,
            name: "netapp_cluster_shassis_shelves".to_owned(),
            help: "Number of shelves in the chassis".to_owned(),
            labels: vec!["filer".to_owned(), "chassis".to_owned()],
            kind: MetricKind::Gauge,
        },
    );
    defs.push(
        MetricDef {
            id: MetricId::ChassisNodes,
            name: "netapp_cluster_shassis_nodes".to_owned(),
            help: "Number of nodes in the chassis".to_owned(),
            labels: vec!["filer".to_owned(), "chassis".to_owned()],
            kind: MetricKind::Gauge,
        },
    );
    defs.push(
        MetricDef {
            id: MetricId::ChassisFruState,
            name: "netapp_cluster_chassis_fru_state_info".to_owned(),
            help: "State of FRU in chassis".to_owned(),
            labels: vec!["filer".to_owned(), "chassis".to_owned(), "fru".to_owned(), "type".to_owned(), "state".to_owned()],
            kind: MetricKind::Gauge,
        },
    );
    defs.push(
        MetricDef {
            id: MetricId::ChassisUsbSupported,
            name: "netapp_cluster_chassis_usb_supported".to_owned(),
            help: "Chassis USB ports are supported".to_owned(),
            labels: vec!["filer".to_owned(), "chassis".to_owned()],
            kind: MetricKind::Gauge,
        },
    );
    defs.push(
        MetricDef {
            id: MetricId::ChassisUsbEnabled,
            name: "netapp_cluster_chassis_usb_enabled".to_owned(),
            help: "Chassis USB ports are enabled".to_owned(),
            labels: vec!["filer".to_owned(), "chassis".to_owned()],
            kind: MetricKind::Gauge,
        },
    );
    defs.push(
        MetricDef {
            id: MetricId::ChassisUsbPortConnected,
            name: "netapp_cluster_chassis_usb_port_info".to_owned(),
            help: "Number of connected or disconnected USB ports".to_owned(),
            labels: vec!["filer".to_owned(), "chassis".to_owned(), "state".to_owned()],
            kind: MetricKind::Gauge,
        },
    );
    proof {
        assert(def_ids(defs@) =~= def_ids(old(defs)@) + spec_chassis_metric_def_ids());
        assert(def_names(defs@) =~= def_names(old(defs)@) + spec_chassis_metric_def_names());
        assert(def_kinds(defs@) =~= def_kinds(old(defs)@) + spec_chassis_metric_def_kinds());
        assert(defs@.take(old(defs)@.len() as int) =~= old(defs)@);
    }
}

/// The identities register_job_metrics registers, in order.
pub open spec fn spec_job_metric_def_ids() -> Seq<MetricId> {
    seq![
        MetricId::ClusterJobState,
    ]
}

/// The exposition names register_job_metrics registers, in order.
pub open spec fn spec_job_metric_def_names() -> Seq<Seq<char>> {
    seq![
        "netapp_cluster_job_state"@,
    ]
}

/// The exposition kinds register_job_metrics registers, in order.
pub open spec fn spec_job_metric_def_kinds() -> Seq<MetricKind> {
    seq![
        MetricKind::Gauge,
    ]
}
/// Register the descriptors of the cluster job collector's metrics.
#[verifier::rlimit(100)]
pub fn register_job_metrics(defs: &mut Vec<MetricDef>)
    ensures
        def_ids(final(defs)@) == def_ids(old(defs)@) + spec_job_metric_def_ids(),
        def_names(final(defs)@) == def_names(old(defs)@) + spec_job_metric_def_names(),
        def_kinds(final(defs)@) == def_kinds(old(defs)@) + spec_job_metric_def_kinds(),
        final(defs)@.take(old(defs)@.len() as int) == old(defs)@,
{
    defs.push(
        MetricDef {
            id: MetricId::ClusterJobState,
            name: "netapp_cluster_job_state".to_owned(),
            help: "The states of jobs on the cluster".to_owned(),
            labels: vec!["filer".to_owned(), "state".to_owned()],
            kind: MetricKind::Gauge,
        },
    );
    proof {
        assert(def_ids(defs@) =~= def_ids(old(defs)@) + spec_job_metric_def_ids());
        assert(def_names(defs@) =~= def_names(old(defs)@) + spec_job_metric_def_names());
        assert(def_kinds(defs@) =~= def_kinds(old(defs)@) + spec_job_metric_def_kinds());
        assert(defs@.take(old(defs)@.len() as int) =~= old(defs)@);
    }
}

/// The identities register_ethernet_metrics registers, in order.
pub open spec fn spec_ethernet_metric_def_ids() -> Seq<MetricId> {
    seq![
        MetricId::EthEnabled,
        MetricId::EthSpeed,
        MetricId::EthMtu,
        MetricId::EthUp,
        MetricId::EthType,
        MetricId::EthReceiveBytes,
        MetricId::EthTransmitBytes,
        MetricId::EthReceiveErrors,
        MetricId::EthReceiveDiscards,
        MetricId::EthReceivePackets,
        MetricId::EthTransmitErrors,
        MetricId::EthTransmitDiscards,
        MetricId::EthTransmitPackets,
    ]
}

/// The exposition names register_ethernet_metrics registers, in order.
pub open spec fn spec_ethernet_metric_def_names() -> Seq<Seq<char>> {
    seq![
        "netapp_ethernet_enabled"@,
        "netapp_ethernet_speed_bytes"@,
        "netapp_ethernet_mtu_bytes"@,
        "netapp_ethernet_up"@,
        "netapp_ethernet_type_info"@,
        "netapp_ethernet_receive_bytes_total"@,
        "netapp_ethernet_transmit_bytes_total"@,
        "netapp_ethernet_receive_errors_total"@,
        "netapp_ethernet_receive_discards_total"@,
        "netapp_ethernet_receive_packet_total"@,
        "netapp_ethernet_transmit_errors_total"@,
        "netapp_ethernet_rtansmit_discards_total"@,
        "netapp_ethernet_transmit_packet_total"@,
    ]
}

/// The exposition kinds register_ethernet_metrics registers, in order.
pub open spec fn spec_ethernet_metric_def_kinds() -> Seq<MetricKind> {
    seq![
        MetricKind::Gauge,
        MetricKind::Gauge,
        MetricKind::Gauge,
        MetricKind::Gauge,
        MetricKind::Gauge,
        MetricKind::Counter,
        MetricKind::Counter,
        MetricKind::Counter,
        MetricKind::Counter,
        MetricKind::Counter,
        MetricKind::Counter,
        MetricKind::Counter,
        MetricKind::Counter,
    ]
}
/// Register the descriptors of the ethernet port collector's metrics.
#[verifier::rlimit(100)]
pub fn register_ethernet_metrics(defs: &mut Vec<MetricDef>)
    ensures
        def_ids(final(defs)@) == def_ids(old(defs)@) + spec_ethernet_metric_def_ids(),
        def_names(final(defs)@) == def_names(old(defs)@) + spec_ethernet_metric_def_names(),
        def_kinds(final(defs)@) == def_kinds(old(defs)@) + spec_ethernet_metric_def_kinds(),
        final(defs)@.take(old(defs)@.len() as int) == old(defs)@,
{
    defs.push(
        MetricDef {
            id: MetricId::EthEnabled,
            name: "netapp_ethernet_enabled".to_owned(),
            help: "Ethernet interface is enabled".to_owned(),
            labels: vec!["filer".to_owned(), "node".to_owned(), "port".to_owned()],
            kind: MetricKind::Gauge,
        },
    );
    defs.push(
        MetricDef {
            id: MetricId::EthSpeed,
            name: "netapp_ethernet_speed_bytes".to_owned(),
            help: "Link speed in bytes per second".to_owned(),
            labels: vec!["filer".to_owned(), "node".to_owned(), "port".to_owned()],
            kind: MetricKind::Gauge,
        },
    );
    defs.push(
        MetricDef {
            id: MetricId::EthMtu,
            name: "netapp_ethernet_mtu_bytes".to_owned(),
            help: "MTU of the port".to_owned(),
            labels: vec!["filer".to_owned(), "node".to_owned(), "port".to_owned()],
            kind: MetricKind::Gauge,
        },
    );
    defs.push(
        MetricDef {
            id: MetricId::EthUp,
            name: "netapp_ethernet_up".to_owned(),
            help: "Value of 1 if port is up, 0 otherwise".to_owned(),
            labels: vec!["filer".to_owned(), "node".to_owned(), "port".to_owned()],
            kind: MetricKind::Gauge,
        },
    );
    defs.push(
        MetricDef {
            id: MetricId::EthType,
            name: "netapp_ethernet_type_info".to_owned(),
            help: "Type of physical or virtual port".to_owned(),
            labels: vec!["filer".to_owned(), "node".to_owned(), "port".to_owned(), "type".to_owned()],
            kind: MetricKind::Gauge,
        },
    );
    defs.push(
        MetricDef {
            id: MetricId::EthReceiveBytes,
            name: "netapp_ethernet_receive_bytes_total".to_owned(),
            help: "Bytes received on this interface".to_owned(),
            labels: vec!["filer".to_owned(), "node".to_owned(), "port".to_owned()],
            kind: MetricKind::Counter,
        },
    );
    defs.push(
        MetricDef {
            id: MetricId::EthTransmitBytes,
            name: "netapp_ethernet_transmit_bytes_total".to_owned(),
            help: "Bytes transmitted on this interface".to_owned(),
            labels: vec!["filer".to_owned(), "node".to_owned(), "port".to_owned()],
            kind: MetricKind::Counter,
        },
    );
    defs.push(
        MetricDef {
            id: MetricId::EthReceiveErrors,
            name: "netapp_ethernet_receive_errors_total".to_owned(),
            help: "Packets with errors received on this interface".to_owned(),
            labels: vec!["filer".to_owned(), "node".to_owned(), "port".to_owned()],
            kind: MetricKind::Counter,
        },
    );
    defs.push(
        MetricDef {
            id: MetricId::EthReceiveDiscards,
            name: "netapp_ethernet_receive_discards_total".to_owned(),
            help: "Received and discarded packets on this interface".to_owned(),
            labels: vec!["filer".to_owned(), "node".to_owned(), "port".to_owned()],
            kind: MetricKind::Counter,
        },
    );
    defs.push(
        MetricDef {
            id: MetricId::EthReceivePackets,
            name: "netapp_ethernet_receive_packet_total".to_owned(),
            help: "Received packets on this interface".to_owned(),
            labels: vec!["filer".to_owned(), "node".to_owned(), "port".to_owned()],
            kind: MetricKind::Counter,
        },
    );
    defs.push(
        MetricDef {
            id: MetricId::EthTransmitErrors,
            name: "netapp_ethernet_transmit_errors_total".to_owned(),
            help: "Packets with errors transmitted on this interface".to_owned(),
            labels: vec!["filer".to_owned(), "node".to_owned(), "port".to_owned()],
            kind: MetricKind::Counter,
        },
    );
    defs.push(
        MetricDef {
            id: MetricId::EthTransmitDiscards,
            name: "netapp_ethernet_rtansmit_discards_total".to_owned(),
            help: "Discarded packets on this interface".to_owned(),
            labels: vec!["filer".to_owned(), "node".to_owned(), "port".to_owned()],
            kind: MetricKind::Counter,
        },
    );
    defs.push(
        MetricDef {
            id: MetricId::EthTransmitPackets,
            name: "netapp_ethernet_transmit_packet_total".to_owned(),
            help: "Transmitted packets on this interface".to_owned(),
            labels: vec!["filer".to_owned(), "node".to_owned(), "port".to_owned()],
            kind: MetricKind::Counter,
        },
    );
    proof {
        assert(def_ids(defs@) =~= def_ids(old(defs)@) + spec_ethernet_metric_def_ids());
        assert(def_names(defs@) =~= def_names(old(defs)@) + spec_ethernet_metric_def_names());
        assert(def_kinds(defs@) =~= def_kinds(old(defs)@) + spec_ethernet_metric_def_kinds());
        assert(defs@.take(old(defs)@.len() as int) =~= old(defs)@);
    }
}

/// The identities register_fibrechannel_metrics registers, in order.
pub open spec fn spec_fibrechannel_metric_def_ids() -> Seq<MetricId> {
    seq![
        MetricId::FcState,
        MetricId::FcEnabled,
        MetricId::FcReceiveBytes,
        MetricId::FcTransmitBytes,
        MetricId::FcPhysicalProtocol,
    ]
}

/// The exposition names register_fibrechannel_metrics registers, in order.
pub open spec fn spec_fibrechannel_metric_def_names() -> Seq<Seq<char>> {
    seq![
        "netapp_fibrechannel_state_info"@,
        "netapp_fibrechannel_enabled"@,
        "netapp_fibrechannel_received_bytes_total"@,
        "netapp_fibrechannel_transmitted_bytes_total"@,
        "netapp_fibrechannel_physical_protocol_info"@,
    ]
}

/// The exposition kinds register_fibrechannel_metrics registers, in order.
pub open spec fn spec_fibrechannel_metric_def_kinds() -> Seq<MetricKind> {
    seq![
        MetricKind::Gauge,
        MetricKind::Gauge,
        MetricKind::Counter,
        MetricKind::Counter,
        MetricKind::Gauge,
    ]
}
/// Register the descriptors of the fibre-channel port collector's metrics.
#[verifier::rlimit(100)]
pub fn register_fibrechannel_metrics(defs: &mut Vec<MetricDef>)
    ensures
        def_ids(final(defs)@) == def_ids(old(defs)@) + spec_fibrechannel_metric_def_ids(),
        def_names(final(defs)@) == def_names(old(defs)@) + spec_fibrechannel_metric_def_names(),
        def_kinds(final(defs)@) == def_kinds(old(defs)@) + spec_fibrechannel_metric_def_kinds(),
        final(defs)@.take(old(defs)@.len() as int) == old(defs)@,
{
    defs.push(
        MetricDef {
            id: MetricId::FcState,
            name: "netapp_fibrechannel_state_info".to_owned(),
            help: "The operational state of the FC port".to_owned(),
            labels: vec!["filer".to_owned(), "node".to_owned(), "port".to_owned(), "state".to_owned()],
            kind: MetricKind::Gauge,
        },
    );
    defs.push(
        MetricDef {
            id: MetricId::FcEnabled,
            name: "netapp_fibrechannel_enabled".to_owned(),
            help: "The administrative state of the FC port".to_owned(),
            labels: vec!["filer".to_owned(), "node".to_owned(), "port".to_owned()],
            kind: MetricKind::Gauge,
        },
    );
    defs.push(
        MetricDef {
            id: MetricId::FcReceiveBytes,
            name: "netapp_fibrechannel_received_bytes_total".to_owned(),
            help: "Bytes received on this interface".to_owned(),
            labels: vec!["filer".to_owned(), "node".to_owned(), "port".to_owned()],
            kind: MetricKind::Counter,
        },
    );
    defs.push(
        MetricDef {
            id: MetricId::FcTransmitBytes,
            name: "netapp_fibrechannel_transmitted_bytes_total".to_owned(),
            help: "Bytes transmitted on this interface".to_owned(),
            labels: vec!["filer".to_owned(), "node".to_owned(), "port".to_owned()],
            kind: MetricKind::Counter,
        },
    );
    defs.push(
        MetricDef {
            id: MetricId::FcPhysicalProtocol,
            name: "netapp_fibrechannel_physical_protocol_info".to_owned(),
            help: "The physical network protocol of the FC port".to_owned(),
            labels: vec!["filer".to_owned(), "node".to_owned(), "port".to_owned(), "protocol".to_owned()],
            kind: MetricKind::Gauge,
        },
    );
    proof {
        assert(def_ids(defs@) =~= def_ids(old(defs)@) + spec_fibrechannel_metric_def_ids());
        assert(def_names(defs@) =~= def_names(old(defs)@) + spec_fibrechannel_metric_def_names());
        assert(def_kinds(defs@) =~= def_kinds(old(defs)@) + spec_fibrechannel_metric_def_kinds());
        assert(defs@.take(old(defs)@.len() as int) =~= old(defs)@);
    }
}

/// The identities register_cifs_metrics registers, in order.
pub open spec fn spec_cifs_metric_def_ids() -> Seq<MetricId> {
    seq![
        MetricId::CifsProtocols,
        MetricId::CifsSmbEncryption,
        MetricId::CifsContinuousAvailability,
        MetricId::CifsOpenFiles,
        MetricId::CifsOpenShares,
        MetricId::CifsOpenOther,
        MetricId::CifsAuthentication,
        MetricId::CifsSmbSigning,
        MetricId::CifsUser,
        MetricId::CifsMappedUnixUser,
        MetricId::CifsClients,
        MetricId::CifsVolumes,
        MetricId::CifsLargeMtu,
        MetricId::CifsConnections,
    ]
}

/// The exposition names register_cifs_metrics registers, in order.
pub open spec fn spec_cifs_metric_def_names() -> Seq<Seq<char>> {
    seq![
        "netapp_cifs_protocols"@,
        "netapp_cifs_smb_encryptions"@,
        "netapp_cifs_continuous_availability"@,
        "netapp_cifs_open_files"@,
        "netapp_cifs_open_shares"@,
        "netapp_cifs_open_other"@,
        "netapp_cifs_authentication"@,
        "netapp_cifs_smb_signing"@,
        "netapp_cifs_user"@,
        "netapp_cifs_mapped_unix_user"@,
        "netapp_cifs_clients"@,
        "netapp_cifs_volumes"@,
        "netapp_cifs_large_mtu"@,
        "netapp_cifs_connections"@,
    ]
}

/// The exposition kinds register_cifs_metrics registers, in order.
pub open spec fn spec_cifs_metric_def_kinds() -> Seq<MetricKind> {
    seq![
        MetricKind::Gauge,
        MetricKind::Gauge,
        MetricKind::Gauge,
        MetricKind::Gauge,
        MetricKind::Gauge,
        MetricKind::Gauge,
        MetricKind::Gauge,
        MetricKind::Gauge,
        MetricKind::Gauge,
        MetricKind::Gauge,
        MetricKind::Gauge,
        MetricKind::Gauge,
        MetricKind::Gauge,
        MetricKind::Gauge,
    ]
}
/// Register the descriptors of the CIFS session collector's metrics.
#[verifier::rlimit(100)]
pub fn register_cifs_metrics(defs: &mut Vec<MetricDef>)
    ensures
        def_ids(final(defs)@) == def_ids(old(defs)@) + spec_cifs_metric_def_ids(),
        def_names(final(defs)@) == def_names(old(defs)@) + spec_cifs_metric_def_names(),
        def_kinds(final(defs)@) == def_kinds(old(defs)@) + spec_cifs_metric_def_kinds(),
        final(defs)@.take(old(defs)@.len() as int) == old(defs)@,
{
    defs.push(
        MetricDef {
            id: MetricId::CifsProtocols,
            name: "netapp_cifs_protocols".to_owned(),
            help: "The SMB protocol version over which the client accesses the volumes".to_owned(),
            labels: vec!["filer".to_owned(), "protocol".to_owned()],
            kind: MetricKind::Gauge,
        },
    );
    defs.push(
        MetricDef {
            id: MetricId::CifsSmbEncryption,
            name: "netapp_cifs_smb_encryptions".to_owned(),
            help: "SMB encryption state".to_owned(),
            labels: vec!["filer".to_owned(), "state".to_owned()],
            kind: MetricKind::Gauge,
        },
    );
    defs.push(
        MetricDef {
            id: MetricId::CifsContinuousAvailability,
            name: "netapp_cifs_continuous_availability".to_owned(),
            help: "The level of continuous availabilty protection provided to the SMB sessions".to_owned(),
            labels: vec!["filer".to_owned(), "state".to_owned()],
            kind: MetricKind::Gauge,
        },
    );
    defs.push(
        MetricDef {
            id: MetricId::CifsOpenFiles,
            name: "netapp_cifs_open_files".to_owned(),
            help: "Number of files opened by SMB sessions".to_owned(),
            labels: vec!["filer".to_owned()],
            kind: MetricKind::Gauge,
        },
    );
    defs.push(
        MetricDef {
            id: MetricId::CifsOpenShares,
            name: "netapp_cifs_open_shares".to_owned(),
            help: "Number of shares opened by SMB sessions".to_owned(),
            labels: vec!["filer".to_owned()],
            kind: MetricKind::Gauge,
        },
    );
    defs.push(
        MetricDef {
            id: MetricId::CifsOpenOther,
            name: "netapp_cifs_open_other".to_owned(),
            help: "Number of other filesystem objects opened by SMB sessions".to_owned(),
            labels: vec!["filer".to_owned()],
            kind: MetricKind::Gauge,
        },
    );
    defs.push(
        MetricDef {
            id: MetricId::CifsAuthentication,
            name: "netapp_cifs_authentication".to_owned(),
            help: "SMB authentication over which the client accesses the share".to_owned(),
            labels: vec!["filer".to_owned(), "type".to_owned()],
            kind: MetricKind::Gauge,
        },
    );
    defs.push(
        MetricDef {
            id: MetricId::CifsSmbSigning,
            name: "netapp_cifs_smb_signing".to_owned(),
            help: "Whether or not SMB signing is enabled".to_owned(),
            labels: vec!["filer".to_owned(), "state".to_owned()],
            kind: MetricKind::Gauge,
        },
    );
    defs.push(
        MetricDef {
            id: MetricId::CifsUser,
            name: "netapp_cifs_user".to_owned(),
            help: "Windows user of SMB connection".to_owned(),
            labels: vec!["filer".to_owned(), "user".to_owned()],
            kind: MetricKind::Gauge,
        },
    );
    defs.push(
        MetricDef {
            id: MetricId::CifsMappedUnixUser,
            name: "netapp_cifs_mapped_unix_user".to_owned(),
            help: "Mapped UNIX user of SMB connection".to_owned(),
            labels: vec!["filer".to_owned(), "user".to_owned()],
            kind: MetricKind::Gauge,
        },
    );
    defs.push(
        MetricDef {
            id: MetricId::CifsClients,
            name: "netapp_cifs_clients".to_owned(),
            help: "Connected CIFS clients".to_owned(),
            labels: vec!["filer".to_owned(), "client_ip".to_owned()],
            kind: MetricKind::Gauge,
        },
    );
    defs.push(
        MetricDef {
            id: MetricId::CifsVolumes,
            name: "netapp_cifs_volumes".to_owned(),
            help: "Volume clients are accessing using CIFS protocol".to_owned(),
            labels: vec!["filer".to_owned(), "volume".to_owned()],
            kind: MetricKind::Gauge,
        },
    );
    defs.push(
        MetricDef {
            id: MetricId::CifsLargeMtu,
            name: "netapp_cifs_large_mtu".to_owned(),
            help: "Whether or not a large MTU is enabled for an SMB session".to_owned(),
            labels: vec!["filer".to_owned(), "state".to_owned()],
            kind: MetricKind::Gauge,
        },
    );
    defs.push(
        MetricDef {
            id: MetricId::CifsConnections,
            name: "netapp_cifs_connections".to_owned(),
            help: "Number of requests that are sent to the volumes to the node".to_owned(),
            labels: vec!["filer".to_owned()],
            kind: MetricKind::Gauge,
        },
    );
    proof {
        assert(def_ids(defs@) =~= def_ids(old(defs)@) + spec_cifs_metric_def_ids());
        assert(def_names(defs@) =~= def_names(old(defs)@) + spec_cifs_metric_def_names());
        assert(def_kinds(defs@) =~= def_kinds(old(defs)@) + spec_cifs_metric_def_kinds());
        assert(defs@.take(old(defs)@.len() as int) =~= old(defs)@);
    }
}

/// The identities register_nfs_metrics registers, in order.
pub open spec fn spec_nfs_metric_def_ids() -> Seq<MetricId> {
    seq![
        MetricId::NfsProtocols,
        MetricId::NfsVolumes,
        MetricId::NfsLocalRequests,
        MetricId::NfsRemoteRequests,
        MetricId::NfsClients,
    ]
}

/// The exposition names register_nfs_metrics registers, in order.
pub open spec fn spec_nfs_metric_def_names() -> Seq<Seq<char>> {
    seq![
        "netapp_nfs_protocols"@,
        "netapp_nfs_volumes"@,
        "netapp_nfs_local_request_total"@,
        "netapp_nfs_remote_request_total"@,
        "netapp_nfs_clients"@,
    ]
}

/// The exposition kinds register_nfs_metrics registers, in order.
pub open spec fn spec_nfs_metric_def_kinds() -> Seq<MetricKind> {
    seq![
        MetricKind::Gauge,
        MetricKind::Gauge,
        MetricKind::Counter,
        MetricKind::Counter,
        MetricKind::Gauge,
    ]
}
/// Register the descriptors of the NFS client collector's metrics.
#[verifier::rlimit(100)]
pub fn register_nfs_metrics(defs: &mut Vec<MetricDef>)
    ensures
        def_ids(final(defs)@) == def_ids(old(defs)@) + spec_nfs_metric_def_ids(),
        def_names(final(defs)@) == def_names(old(defs)@) + spec_nfs_metric_def_names(),
        def_kinds(final(defs)@) == def_kinds(old(defs)@) + spec_nfs_metric_def_kinds(),
        final(defs)@.take(old(defs)@.len() as int) == old(defs)@,
{
    defs.push(
        MetricDef {
            id: MetricId::NfsProtocols,
            name: "netapp_nfs_protocols".to_owned(),
            help: "NFS protocol version over which client is accessing the volume".to_owned(),
            labels: vec!["filer".to_owned(), "protocol".to_owned()],
            kind: MetricKind::Gauge,
        },
    );
    defs.push(
        MetricDef {
            id: MetricId::NfsVolumes,
            name: "netapp_nfs_volumes".to_owned(),
            help: "Connected volume".to_owned(),
            labels: vec!["filer".to_owned(), "volume".to_owned()],
            kind: MetricKind::Gauge,
        },
    );
    defs.push(
        MetricDef {
            id: MetricId::NfsLocalRequests,
            name: "netapp_nfs_local_request_total".to_owned(),
            help: "Requests that are sent to the volume with fast-path to local node".to_owned(),
            labels: vec!["filer".to_owned()],
            kind: MetricKind::Counter,
        },
    );
    defs.push(
        MetricDef {
            id: MetricId::NfsRemoteRequests,
            name: "netapp_nfs_remote_request_total".to_owned(),
            help: "Requests that are sent to the volume with slow-path to local node".to_owned(),
            labels: vec!["filer".to_owned()],
            kind: MetricKind::Counter,
        },
    );
    defs.push(
        MetricDef {
            id: MetricId::NfsClients,
            name: "netapp_nfs_clients".to_owned(),
            help: "Connected NFS clients".to_owned(),
            labels: vec!["filer".to_owned(), "client_ip".to_owned()],
            kind: MetricKind::Gauge,
        },
    );
    proof {
        assert(def_ids(defs@) =~= def_ids(old(defs)@) + spec_nfs_metric_def_ids());
        assert(def_names(defs@) =~= def_names(old(defs)@) + spec_nfs_metric_def_names());
        assert(def_kinds(defs@) =~= def_kinds(old(defs)@) + spec_nfs_metric_def_kinds());
        assert(defs@.take(old(defs)@.len() as int) =~= old(defs)@);
    }
}

/// The identities register_scrape_error_metrics registers, in order.
pub open spec fn spec_scrape_error_metric_def_ids() -> Seq<MetricId> {
    seq![
        MetricId::ScrapeErrorsTotal,
    ]
}

/// The exposition names register_scrape_error_metrics registers, in order.
pub open spec fn spec_scrape_error_metric_def_names() -> Seq<Seq<char>> {
    seq![
        "netapp_scrape_errors_total"@,
    ]
}

/// The exposition kinds register_scrape_error_metrics registers, in order.
pub open spec fn spec_scrape_error_metric_def_kinds() -> Seq<MetricKind> {
    seq![
        MetricKind::Counter,
    ]
}
/// Register the descriptors of the scrape-error bookkeeping metric.
#[verifier::rlimit(100)]
pub fn register_scrape_error_metrics(defs: &mut Vec<MetricDef>)
    ensures
        def_ids(final(defs)@) == def_ids(old(defs)@) + spec_scrape_error_metric_def_ids(),
        def_names(final(defs)@) == def_names(old(defs)@) + spec_scrape_error_metric_def_names(),
        def_kinds(final(defs)@) == def_kinds(old(defs)@) + spec_scrape_error_metric_def_kinds(),
        final(defs)@.take(old(defs)@.len() as int) == old(defs)@,
{
    defs.push(
        MetricDef {
            id: MetricId::ScrapeErrorsTotal,
            name: "netapp_scrape_errors_total".to_owned(),
            help: "Number of failed collector invocations, per target and resource".to_owned(),
            labels: vec!["target".to_owned(), "resource".to_owned()],
            kind: MetricKind::Counter,
        },
    );
    proof {
        assert(def_ids(defs@) =~= def_ids(old(defs)@) + spec_scrape_error_metric_def_ids());
        assert(def_names(defs@) =~= def_names(old(defs)@) + spec_scrape_error_metric_def_names());
        assert(def_kinds(defs@) =~= def_kinds(old(defs)@) + spec_scrape_error_metric_def_kinds());
        assert(defs@.take(old(defs)@.len() as int) =~= old(defs)@);
    }
}

} // verus!
