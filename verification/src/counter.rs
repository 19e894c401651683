use vstd::prelude::*;

use crate::decode::string_eq;
use crate::sample::{clone_labels, count_sv, push_count, MetricId, Sample, SampleView};

verus! {

/// Identity of one tracked counter series: the metric plus its full label
/// tuple. State is tracked independently per key.
pub struct CounterKey {
    pub id: MetricId,
    pub labels: Vec<String>,
}

/// Mathematical image of a `CounterKey`.
pub struct CounterKeyView {
    pub id: MetricId,
    pub labels: Seq<Seq<char>>,
}

impl View for CounterKey {
    type V = CounterKeyView;

    open spec fn view(&self) -> CounterKeyView {
        CounterKeyView { id: self.id, labels: self.labels.deep_view() }
    }
}

impl DeepView for CounterKey {
    type V = CounterKeyView;

    open spec fn deep_view(&self) -> CounterKeyView {
        self.view()
    }
}

/// Two counter keys are the same series exactly when their images agree.
pub fn counter_key_eq(a: &CounterKey, b: &CounterKey) -> (r: bool)
    ensures
        r == (a@ == b@),
{
    if a.id != b.id {
        return false;
    }
    if a.labels.len() != b.labels.len() {
        assert(a@.labels.len() != b@.labels.len());
        return false;
    }
    let mut i: usize = 0;
    while i < a.labels.len()
        invariant
            i <= a.labels.len(),
            a.labels.len() == b.labels.len(),
            a.id == b.id,
            forall|j: int| 0 <= j < i ==> a@.labels[j] == b@.labels[j],
        decreases a.labels.len() - i,
    {
        if !string_eq(&a.labels[i], &b.labels[i]) {
            assert(a@.labels[i as int] != b@.labels[i as int]);
            return false;
        }
        i = i + 1;
    }
    proof {
        assert(a@.labels =~= b@.labels);
    }
    true
}

/// Per-key reconciliation state: the last raw cumulative value the device
/// reported (the baseline) and the cumulative value published so far.
pub struct CounterEntry {
    pub key: CounterKey,
    pub baseline: u64,
    pub published: u64,
}

/// Process-wide map from counter series to reconciliation state. Created
/// empty at startup and never persisted: after a restart every series is
/// re-baselined from its next raw sample.
///
/// Known, accepted imprecision: when a raw sample regresses, the published
/// counter restarts at 0, so any growth between the last good sample and
/// the reset point is not reported.
pub struct CounterState {
    pub entries: Vec<CounterEntry>,
}

impl CounterState {
    /// Internal invariant: one entry per series, and the published value
    /// never exceeds the baseline (so a delta can never overflow).
    pub open spec fn wf(self) -> bool {
        &&& forall|i: int, j: int|
            0 <= i < j < self.entries@.len() ==> self.entries@[i].key@ != self.entries@[j].key@
        &&& forall|i: int|
            0 <= i < self.entries@.len() ==> #[trigger] self.entries@[i].published
                <= self.entries@[i].baseline
    }

    /// Whether a series has been observed before.
    pub open spec fn spec_contains(self, k: CounterKeyView) -> bool {
        exists|i: int| 0 <= i < self.entries@.len() && self.entries@[i].key@ == k
    }

    pub open spec fn spec_index_of(self, k: CounterKeyView) -> int {
        choose|i: int| 0 <= i < self.entries@.len() && self.entries@[i].key@ == k
    }

    /// The last raw cumulative value recorded for a series.
    pub open spec fn spec_baseline(self, k: CounterKeyView) -> u64 {
        self.entries@[self.spec_index_of(k)].baseline
    }

    /// The cumulative value published so far for a series.
    pub open spec fn spec_published(self, k: CounterKeyView) -> u64 {
        self.entries@[self.spec_index_of(k)].published
    }

    /// An empty state: no series has been observed.
    pub fn new() -> (s: Self)
        ensures
            s.wf(),
            forall|k: CounterKeyView| !s.spec_contains(k),
    {
        CounterState { entries: Vec::new() }
    }

    /// Reconcile one raw cumulative sample for a series and return the
    /// cumulative value to publish.
    ///
    /// A brand-new series publishes exactly the raw value (the undefined
    /// previous value counts as 0). An established series with a
    /// non-regressing sample publishes its previous value plus the raw
    /// delta, so the published counter never decreases. A regressing
    /// sample (device reboot, counter reset, or an overflow wrap of
    /// unknown width) resets the published counter to 0 and re-baselines
    /// at the new raw value. No other series is touched.
    pub fn observe(&mut self, key: CounterKey, raw: u64) -> (published: u64)
        requires
            old(self).wf(),
        ensures
            final(self).wf(),
            final(self).spec_contains(key@),
            published == final(self).spec_published(key@),
            final(self).spec_baseline(key@) == raw,
            !old(self).spec_contains(key@) ==> published == raw,
            old(self).spec_contains(key@) && raw >= old(self).spec_baseline(key@) ==> published
                == old(self).spec_published(key@) + (raw - old(self).spec_baseline(key@)),
            old(self).spec_contains(key@) && raw < old(self).spec_baseline(key@) ==> published
                == 0,
            forall|k: CounterKeyView|
                k != key@ ==> final(self).spec_contains(k) == old(self).spec_contains(k),
            forall|k: CounterKeyView|
                k != key@ && old(self).spec_contains(k) ==> final(self).spec_baseline(k) == old(
                    self,
                ).spec_baseline(k) && final(self).spec_published(k) == old(self).spec_published(k),
            spec_counters(*final(self)) == spec_observe(spec_counters(*old(self)), key@, raw).0,
            published == spec_observe(spec_counters(*old(self)), key@, raw).1,
    {
        let ghost pre = *self;
        let n = self.entries.len();
        let mut i: usize = 0;
        let mut pos: usize = 0;
        let mut found = false;
        while i < n
            invariant
                i <= n,
                n == self.entries@.len(),
                *self == pre,
                !found ==> forall|j: int| 0 <= j < i ==> self.entries@[j].key@ != key@,
                found ==> pos < i && self.entries@[pos as int].key@ == key@,
            decreases n - i,
        {
            if !found && counter_key_eq(&self.entries[i].key, &key) {
                found = true;
                pos = i;
            }
            i = i + 1;
        }
        if found {
            proof {
                lemma_unique_index(pre, key@, pos as int);
            }
            let base = self.entries[pos].baseline;
            let prev = self.entries[pos].published;
            let published: u64 = if raw >= base {
                prev + (raw - base)
            } else {
                0
            };
            self.entries[pos].baseline = raw;
            self.entries[pos].published = published;
            proof {
                assert(self.entries@ == pre.entries@.update(pos as int, self.entries@[pos as int]));
                lemma_observe_frame(pre, *self, key@, pos as int);
                assert(spec_counters(*self) =~= spec_observe(spec_counters(pre), key@, raw).0);
            }
            published
        } else {
            proof {
                assert(!pre.spec_contains(key@));
            }
            let ghost before = *self;
            self.entries.push(CounterEntry { key, baseline: raw, published: raw });
            proof {
                let m = self.entries@.len() - 1;
                assert(self.entries@[m].key@ == key@);
                lemma_observe_push_frame(pre, *self, key@);
                assert(spec_counters(*self) =~= spec_observe(spec_counters(pre), key@, raw).0);
            }
            raw
        }
    }
}


/// The abstract state of the reconciler: for every observed series, its
/// baseline (last raw value) and published cumulative value.
pub open spec fn spec_counters(cs: CounterState) -> Map<CounterKeyView, (u64, u64)> {
    Map::new(
        |k: CounterKeyView| cs.spec_contains(k),
        |k: CounterKeyView| (cs.spec_baseline(k), cs.spec_published(k)),
    )
}

/// Functional model of one observation: the map afterwards and the value
/// published for the observed series.
pub open spec fn spec_observe(
    m: Map<CounterKeyView, (u64, u64)>,
    k: CounterKeyView,
    raw: u64,
) -> (Map<CounterKeyView, (u64, u64)>, u64) {
    if m.dom().contains(k) {
        let prev = m[k];
        if raw >= prev.0 {
            let p = (prev.1 + (raw - prev.0)) as u64;
            (m.insert(k, (raw, p)), p)
        } else {
            (m.insert(k, (raw, 0u64)), 0u64)
        }
    } else {
        (m.insert(k, (raw, raw)), raw)
    }
}

/// In a well-formed state the index of a present key is unique, so the
/// chosen index is the found one.
proof fn lemma_unique_index(s: CounterState, k: CounterKeyView, pos: int)
    requires
        s.wf(),
        0 <= pos < s.entries@.len(),
        s.entries@[pos].key@ == k,
    ensures
        s.spec_contains(k),
        s.spec_index_of(k) == pos,
{
    assert(s.spec_contains(k));
    let i = s.spec_index_of(k);
    assert(0 <= i < s.entries@.len() && s.entries@[i].key@ == k);
    if i != pos {
        if i < pos {
            assert(s.entries@[i].key@ != s.entries@[pos].key@);
        } else {
            assert(s.entries@[pos].key@ != s.entries@[i].key@);
        }
        assert(false);
    }
}

/// Updating the entry of one key, keeping its key in place, leaves every
/// other series untouched.
proof fn lemma_observe_frame(pre: CounterState, post: CounterState, k: CounterKeyView, pos: int)
    requires
        pre.wf(),
        0 <= pos < pre.entries@.len(),
        pre.entries@[pos].key@ == k,
        post.entries@.len() == pre.entries@.len(),
        post.entries@[pos].key@ == k,
        forall|j: int| 0 <= j < pre.entries@.len() && j != pos ==> post.entries@[j] == pre.entries@[j],
        post.entries@[pos].published <= post.entries@[pos].baseline,
    ensures
        post.wf(),
        post.spec_contains(k),
        post.spec_index_of(k) == pos,
        pre.spec_index_of(k) == pos,
        forall|k2: CounterKeyView| k2 != k ==> post.spec_contains(k2) == pre.spec_contains(k2),
        forall|k2: CounterKeyView|
            k2 != k && pre.spec_contains(k2) ==> post.spec_baseline(k2) == pre.spec_baseline(k2)
                && post.spec_published(k2) == pre.spec_published(k2),
{
    assert(forall|j: int|
        0 <= j < post.entries@.len() ==> post.entries@[j].key@ == pre.entries@[j].key@);
    lemma_unique_index(pre, k, pos);
    assert(post.wf());
    lemma_unique_index(post, k, pos);
    assert forall|k2: CounterKeyView| k2 != k implies post.spec_contains(k2)
        == pre.spec_contains(k2) by {
        if pre.spec_contains(k2) {
            let i = pre.spec_index_of(k2);
            assert(post.entries@[i].key@ == k2);
        }
        if post.spec_contains(k2) {
            let i = post.spec_index_of(k2);
            assert(pre.entries@[i].key@ == k2);
        }
    }
    assert forall|k2: CounterKeyView| k2 != k && pre.spec_contains(k2) implies post.spec_baseline(
        k2,
    ) == pre.spec_baseline(k2) && post.spec_published(k2) == pre.spec_published(k2) by {
        let i = pre.spec_index_of(k2);
        assert(0 <= i < pre.entries@.len() && pre.entries@[i].key@ == k2);
        lemma_unique_index(post, k2, i);
        lemma_unique_index(pre, k2, i);
        assert(i != pos);
    }
}

/// Appending an entry for a new key leaves every existing series untouched.
proof fn lemma_observe_push_frame(pre: CounterState, post: CounterState, k: CounterKeyView)
    requires
        pre.wf(),
        !pre.spec_contains(k),
        post.entries@.len() == pre.entries@.len() + 1,
        forall|j: int| 0 <= j < pre.entries@.len() ==> post.entries@[j] == pre.entries@[j],
        post.entries@.last().key@ == k,
        post.entries@.last().published <= post.entries@.last().baseline,
    ensures
        post.wf(),
        post.spec_contains(k),
        post.spec_index_of(k) == pre.entries@.len(),
        forall|k2: CounterKeyView| k2 != k ==> post.spec_contains(k2) == pre.spec_contains(k2),
        forall|k2: CounterKeyView|
            k2 != k && pre.spec_contains(k2) ==> post.spec_baseline(k2) == pre.spec_baseline(k2)
                && post.spec_published(k2) == pre.spec_published(k2),
{
    let m = pre.entries@.len() as int;
    assert(forall|j: int| 0 <= j < m ==> post.entries@[j].key@ == pre.entries@[j].key@);
    assert forall|i: int, j: int|
        0 <= i < j < post.entries@.len() implies post.entries@[i].key@
        != post.entries@[j].key@ by {
        if j == m {
            assert(pre.entries@[i].key@ != k) by {
                if pre.entries@[i].key@ == k {
                    assert(pre.spec_contains(k));
                }
            }
        }
    }
    assert(post.wf());
    lemma_unique_index(post, k, m);
    assert forall|k2: CounterKeyView| k2 != k implies post.spec_contains(k2)
        == pre.spec_contains(k2) by {
        if pre.spec_contains(k2) {
            let i = pre.spec_index_of(k2);
            assert(post.entries@[i].key@ == k2);
        }
        if post.spec_contains(k2) {
            let i = post.spec_index_of(k2);
            assert(0 <= i < post.entries@.len() && post.entries@[i].key@ == k2);
            assert(i != m);
            assert(pre.entries@[i].key@ == k2);
        }
    }
    assert forall|k2: CounterKeyView| k2 != k && pre.spec_contains(k2) implies post.spec_baseline(
        k2,
    ) == pre.spec_baseline(k2) && post.spec_published(k2) == pre.spec_published(k2) by {
        let i = pre.spec_index_of(k2);
        assert(0 <= i < pre.entries@.len() && pre.entries@[i].key@ == k2);
        lemma_unique_index(post, k2, i);
        lemma_unique_index(pre, k2, i);
    }
}

/// Identity of one counter series from its metric and label tuple.
pub open spec fn counter_series_key(id: MetricId, base: Seq<Seq<char>>) -> CounterKeyView {
    CounterKeyView { id, labels: base }
}

/// One reconciled counter: the new counter map and the sample carrying the
/// published cumulative value.
pub open spec fn counter_step(
    m: Map<CounterKeyView, (u64, u64)>,
    id: MetricId,
    base: Seq<Seq<char>>,
    raw: u64,
) -> (Map<CounterKeyView, (u64, u64)>, SampleView) {
    let r = spec_observe(m, counter_series_key(id, base), raw);
    (r.0, count_sv(id, base, r.1))
}

/// Reconcile one raw cumulative counter sample and append the sample that
/// publishes it.
pub fn push_counter_series(
    out: &mut Vec<Sample>,
    counters: &mut CounterState,
    id: MetricId,
    base: &Vec<String>,
    raw: u64,
)
    requires
        old(counters).wf(),
    ensures
        final(counters).wf(),
        spec_counters(*final(counters)) == counter_step(
            spec_counters(*old(counters)),
            id,
            base.deep_view(),
            raw,
        ).0,
        final(out).deep_view() == old(out).deep_view().push(
            counter_step(spec_counters(*old(counters)), id, base.deep_view(), raw).1,
        ),
{
    let key = CounterKey { id, labels: clone_labels(base) };
    proof {
        assert(key@ == counter_series_key(id, base.deep_view()));
    }
    let published = counters.observe(key, raw);
    push_count(out, id, clone_labels(base), published);
}

/// Counter reconciliation law. On the abstract counter map: a brand-new
/// series publishes exactly its raw value; an established series with a
/// non-regressing sample never publishes less than before; a regressing
/// sample resets the published value to 0 and re-baselines at the new raw
/// value; and no observation touches any other series. The hypothesis
/// that a series never publishes more than its baseline is the
/// reconciler's internal invariant.
pub proof fn lemma_counter_reconciliation(
    m: Map<CounterKeyView, (u64, u64)>,
    k: CounterKeyView,
    raw: u64,
)
    ensures
        !m.dom().contains(k) ==> spec_observe(m, k, raw).1 == raw,
        m.dom().contains(k) && m[k].1 <= m[k].0 && raw >= m[k].0 ==> spec_observe(m, k, raw).1
            >= m[k].1,
        m.dom().contains(k) && raw < m[k].0 ==> spec_observe(m, k, raw).1 == 0,
        spec_observe(m, k, raw).0[k] == (raw, spec_observe(m, k, raw).1),
        forall|k2: CounterKeyView|
            k2 != k ==> spec_observe(m, k, raw).0.dom().contains(k2) == m.dom().contains(k2),
        forall|k2: CounterKeyView|
            k2 != k && m.dom().contains(k2) ==> spec_observe(m, k, raw).0[k2] == m[k2],
{
}

} // verus!
