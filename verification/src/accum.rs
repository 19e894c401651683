use vstd::prelude::*;

use crate::decode::{distinct_seq, string_eq};
use crate::sample::{clone_labels, gauge_sv, lemma_deep_view_push, push_gauge, MetricId, Sample,
    SampleView};

verus! {

/// Abstract state of a per-cycle group accumulator: the group keys in the
/// order they will be emitted, and the count for each key.
pub struct AccView {
    pub keys: Seq<Seq<char>>,
    pub counts: Seq<i64>,
}

/// A count stops one short of overflow instead of wrapping.
pub open spec fn sat_inc(c: i64) -> i64 {
    if c == i64::MAX {
        c
    } else {
        (c + 1) as i64
    }
}

/// One observation of a group key: bump its count if the key is already
/// tracked, otherwise start tracking it with count 1.
pub open spec fn spec_bump(a: AccView, k: Seq<char>) -> AccView {
    if a.keys.contains(k) {
        let i = a.keys.index_of(k);
        AccView { keys: a.keys, counts: a.counts.update(i, sat_inc(a.counts[i])) }
    } else {
        AccView { keys: a.keys.push(k), counts: a.counts.push(1) }
    }
}

/// Observations folded left to right.
pub open spec fn spec_bump_seq(a: AccView, ks: Seq<Seq<char>>) -> AccView
    decreases ks.len(),
{
    if ks.len() == 0 {
        a
    } else {
        spec_bump(spec_bump_seq(a, ks.drop_last()), ks.last())
    }
}

/// Seeding one vocabulary member: start tracking it at 0 unless it is
/// already tracked.
pub open spec fn spec_seed(a: AccView, k: Seq<char>) -> AccView {
    if a.keys.contains(k) {
        a
    } else {
        AccView { keys: a.keys.push(k), counts: a.counts.push(0) }
    }
}

/// Vocabulary members seeded left to right.
pub open spec fn spec_seed_seq(a: AccView, ks: Seq<Seq<char>>) -> AccView
    decreases ks.len(),
{
    if ks.len() == 0 {
        a
    } else {
        spec_seed(spec_seed_seq(a, ks.drop_last()), ks.last())
    }
}

/// The empty accumulator.
pub open spec fn acc_empty() -> AccView {
    AccView { keys: Seq::empty(), counts: Seq::empty() }
}

/// The accumulator seeded with every member of a closed vocabulary at 0,
/// so that absent members are still emitted each cycle.
pub open spec fn seeded(vocab: Seq<Seq<char>>) -> AccView {
    spec_seed_seq(acc_empty(), vocab)
}

/// The gauge samples an accumulator emits: one per tracked key, in
/// tracking order.
pub open spec fn acc_samples(id: MetricId, base: Seq<Seq<char>>, a: AccView) -> Seq<SampleView> {
    Seq::new(a.keys.len(), |i: int| gauge_sv(id, base.push(a.keys[i]), a.counts[i]))
}

/// Ephemeral per-cycle map from a composite group key to a count, used for
/// list-valued endpoints before emission.
pub struct GroupAccumulator {
    pub keys: Vec<String>,
    pub counts: Vec<i64>,
}

impl View for GroupAccumulator {
    type V = AccView;

    open spec fn view(&self) -> AccView {
        AccView { keys: self.keys.deep_view(), counts: self.counts@ }
    }
}

impl GroupAccumulator {
    /// Internal invariant: counts line up with keys and no key repeats.
    pub open spec fn wf(self) -> bool {
        &&& self@.keys.len() == self@.counts.len()
        &&& distinct_seq(self@.keys)
    }

    /// An accumulator tracking nothing yet, for open-ended dimensions.
    pub fn new() -> (a: Self)
        ensures
            a.wf(),
            a@ == acc_empty(),
    {
        let a = GroupAccumulator { keys: Vec::new(), counts: Vec::new() };
        proof {
            assert(a@.keys =~= acc_empty().keys);
            assert(a@.counts =~= acc_empty().counts);
        }
        a
    }

    /// An accumulator seeded with a closed vocabulary, every member at 0.
    pub fn from_vocab(vocab: &Vec<String>) -> (a: Self)
        ensures
            a.wf(),
            a@ == seeded(vocab.deep_view()),
    {
        let mut a = GroupAccumulator::new();
        let ghost ks = vocab.deep_view();
        let mut i: usize = 0;
        while i < vocab.len()
            invariant
                i <= vocab@.len(),
                ks == vocab.deep_view(),
                a.wf(),
                a@ == spec_seed_seq(acc_empty(), ks.take(i as int)),
            decreases vocab@.len() - i,
        {
            a.seed(&vocab[i]);
            proof {
                assert(ks.take(i as int + 1).drop_last() =~= ks.take(i as int));
                assert(ks.take(i as int + 1).last() == ks[i as int]);
            }
            i = i + 1;
        }
        proof {
            assert(ks.take(vocab@.len() as int) =~= ks);
        }
        a
    }

    /// Start tracking a group key at 0 if it is not tracked yet.
    pub fn seed(&mut self, key: &String)
        requires
            old(self).wf(),
        ensures
            final(self).wf(),
            final(self)@ == spec_seed(old(self)@, key@),
    {
        let ghost pre = self@;
        let n = self.keys.len();
        let mut i: usize = 0;
        let mut pos: usize = 0;
        let mut found = false;
        while i < n
            invariant
                i <= n,
                n == self.keys@.len(),
                self@ == pre,
                !found ==> forall|j: int| 0 <= j < i ==> self@.keys[j] != key@,
                found ==> pos < i && self@.keys[pos as int] == key@,
            decreases n - i,
        {
            if !found && string_eq(&self.keys[i], key) {
                found = true;
                pos = i;
            }
            i = i + 1;
        }
        if !found {
            proof {
                assert(!pre.keys.contains(key@));
            }
            let ghost keys_before = self.keys;
            let k = key.clone();
            self.keys.push(k);
            self.counts.push(0);
            proof {
                lemma_deep_view_push(keys_before, self.keys, k);
            }
        } else {
            proof {
                assert(pre.keys.contains(key@));
            }
        }
    }

    /// Record one observation of a group key.
    pub fn bump(&mut self, key: &String)
        requires
            old(self).wf(),
        ensures
            final(self).wf(),
            final(self)@ == spec_bump(old(self)@, key@),
    {
        let ghost pre = self@;
        let n = self.keys.len();
        let mut i: usize = 0;
        let mut pos: usize = 0;
        let mut found = false;
        while i < n
            invariant
                i <= n,
                n == self.keys@.len(),
                self@ == pre,
                !found ==> forall|j: int| 0 <= j < i ==> self@.keys[j] != key@,
                found ==> pos < i && self@.keys[pos as int] == key@,
            decreases n - i,
        {
            if !found && string_eq(&self.keys[i], key) {
                found = true;
                pos = i;
            }
            i = i + 1;
        }
        if found {
            proof {
                assert(pre.keys.contains(key@));
                let w = pre.keys.index_of(key@);
                assert(0 <= w < pre.keys.len() && pre.keys[w] == key@);
                if w != pos {
                    assert(pre.keys[w] != pre.keys[pos as int]);
                }
                assert(pre.keys.index_of(key@) == pos);
            }
            let c = self.counts[pos];
            let bumped: i64 = if c == i64::MAX {
                c
            } else {
                c + 1
            };
            self.counts[pos] = bumped;
            proof {
                assert(self@.keys =~= pre.keys);
                assert(self@.counts =~= spec_bump(pre, key@).counts);
            }
        } else {
            proof {
                assert(!pre.keys.contains(key@));
            }
            let ghost keys_before = self.keys;
            let k = key.clone();
            self.keys.push(k);
            self.counts.push(1);
            proof {
                lemma_deep_view_push(keys_before, self.keys, k);
            }
        }
    }

    /// Record one observation of each key in order.
    pub fn bump_all(&mut self, keys: &Vec<String>)
        requires
            old(self).wf(),
        ensures
            final(self).wf(),
            final(self)@ == spec_bump_seq(old(self)@, keys.deep_view()),
    {
        let ghost all = keys.deep_view();
        let mut i: usize = 0;
        while i < keys.len()
            invariant
                i <= keys.len(),
                all == keys.deep_view(),
                self.wf(),
                self@ == spec_bump_seq(old(self)@, all.take(i as int)),
            decreases keys.len() - i,
        {
            self.bump(&keys[i]);
            proof {
                assert(all.take(i as int + 1).drop_last() =~= all.take(i as int));
                assert(all.take(i as int + 1).last() == all[i as int]);
            }
            i = i + 1;
        }
        proof {
            assert(all.take(keys.len() as int) =~= all);
        }
    }

    /// Emit one gauge sample per tracked key, in tracking order.
    pub fn emit(&self, out: &mut Vec<Sample>, id: MetricId, base: &Vec<String>)
        requires
            self.wf(),
        ensures
            final(out).deep_view() == old(out).deep_view() + acc_samples(
                id,
                base.deep_view(),
                self@,
            ),
    {
        let ghost start = out.deep_view();
        let ghost full = acc_samples(id, base.deep_view(), self@);
        let mut i: usize = 0;
        while i < self.keys.len()
            invariant
                i <= self.keys@.len(),
                self.wf(),
                full == acc_samples(id, base.deep_view(), self@),
                out.deep_view() == start + full.take(i as int),
            decreases self.keys@.len() - i,
        {
            let mut labels = clone_labels(base);
            let ghost labels_before = labels;
            let k = self.keys[i].clone();
            assert(k@ == self@.keys[i as int]);
            labels.push(k);
            proof {
                lemma_deep_view_push(labels_before, labels, k);
            }
            push_gauge(out, id, labels, self.counts[i]);
            proof {
                assert(out.deep_view() =~= start + full.take(i as int + 1));
            }
            i = i + 1;
        }
        proof {
            assert(full.take(self.keys@.len() as int) =~= full);
        }
    }
}

} // verus!
