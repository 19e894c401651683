use vstd::prelude::*;

use crate::sample::{
    clone_labels, gauge_sv, lemma_deep_view_push, push_gauge, MetricId, Sample, SampleValue,
    SampleView,
};

verus! {

/// String equality is equality of the character sequences.
pub fn string_eq(a: &String, b: &String) -> (r: bool)
    ensures
        r == (a@ == b@),
{
    a.eq(b)
}

/// A vocabulary is well formed when no member repeats.
pub open spec fn distinct_seq(v: Seq<Seq<char>>) -> bool {
    forall|i: int, j: int| 0 <= i < j < v.len() ==> v[i] != v[j]
}

/// The samples produced by decoding `raw` against a closed, ordered
/// vocabulary: for a recognized value, one sample per member, 1 on the
/// matching member and 0 elsewhere; for an unrecognized value, none.
pub open spec fn one_hot_samples(
    id: MetricId,
    base: Seq<Seq<char>>,
    vocab: Seq<Seq<char>>,
    raw: Seq<char>,
) -> Seq<SampleView> {
    if vocab.contains(raw) {
        Seq::new(
            vocab.len(),
            |i: int|
                gauge_sv(
                    id,
                    base.push(vocab[i]),
                    if vocab[i] == raw {
                        1
                    } else {
                        0
                    },
                ),
        )
    } else {
        Seq::empty()
    }
}

/// Whether `raw` is a member of the vocabulary.
pub fn vocab_contains(vocab: &Vec<String>, raw: &String) -> (r: bool)
    ensures
        r == vocab.deep_view().contains(raw@),
{
    let mut i: usize = 0;
    let mut found = false;
    while i < vocab.len()
        invariant
            i <= vocab.len(),
            found == exists|k: int| 0 <= k < i && vocab.deep_view()[k] == raw@,
        decreases vocab.len() - i,
    {
        if string_eq(&vocab[i], raw) {
            found = true;
            assert(vocab.deep_view()[i as int] == raw@);
        }
        i = i + 1;
    }
    assert(found == vocab.deep_view().contains(raw@));
    found
}

/// Decode one state-like string against a closed vocabulary, appending the
/// one-hot samples; reports whether the value was recognized, so the caller
/// can log unrecognized values.
pub fn push_one_hot(
    out: &mut Vec<Sample>,
    id: MetricId,
    base: &Vec<String>,
    vocab: &Vec<String>,
    raw: &String,
) -> (recognized: bool)
    ensures
        final(out).deep_view() == old(out).deep_view() + one_hot_samples(
            id,
            base.deep_view(),
            vocab.deep_view(),
            raw@,
        ),
        recognized == vocab.deep_view().contains(raw@),
{
    let ghost start = out.deep_view();
    let recognized = vocab_contains(vocab, raw);
    if !recognized {
        proof {
            assert(out.deep_view() =~= start + one_hot_samples(
                id,
                base.deep_view(),
                vocab.deep_view(),
                raw@,
            ));
        }
        return false;
    }
    let ghost full = one_hot_samples(id, base.deep_view(), vocab.deep_view(), raw@);
    let mut i: usize = 0;
    while i < vocab.len()
        invariant
            i <= vocab.len(),
            vocab.deep_view().contains(raw@),
            full == one_hot_samples(id, base.deep_view(), vocab.deep_view(), raw@),
            out.deep_view() == start + full.take(i as int),
        decreases vocab.len() - i,
    {
        let v: i64 = if string_eq(&vocab[i], raw) {
            1
        } else {
            0
        };
        let mut labels = clone_labels(base);
        let ghost labels_before = labels;
        let member = vocab[i].clone();
        assert(member@ == vocab.deep_view()[i as int]);
        labels.push(member);
        proof {
            lemma_deep_view_push(labels_before, labels, member);
        }
        push_gauge(out, id, labels, v);
        proof {
            assert(full[i as int] == gauge_sv(
                id,
                base.deep_view().push(vocab.deep_view()[i as int]),
                v,
            ));
            assert(out.deep_view() =~= start + full.take(i as int + 1));
        }
        i = i + 1;
    }
    proof {
        assert(full.take(vocab.len() as int) =~= full);
    }
    true
}

/// The exposed value of a sample, counting only plain integer gauges.
pub open spec fn sample_int_value(s: SampleView) -> int {
    match s.value {
        SampleValue::Int(v) => v as int,
        SampleValue::Count(v) => v as int,
        SampleValue::Micros(v) => v as int,
    }
}

/// The sum of the values of a sequence of samples.
pub open spec fn sum_values(s: Seq<SampleView>) -> int
    decreases s.len(),
{
    if s.len() == 0 {
        0
    } else {
        sum_values(s.drop_last()) + sample_int_value(s.last())
    }
}

proof fn lemma_sum_all_zero(s: Seq<SampleView>)
    requires
        forall|j: int| 0 <= j < s.len() ==> sample_int_value(s[j]) == 0,
    ensures
        sum_values(s) == 0,
    decreases s.len(),
{
    if s.len() > 0 {
        lemma_sum_all_zero(s.drop_last());
    }
}

proof fn lemma_sum_indicator(s: Seq<SampleView>, k: int)
    requires
        0 <= k < s.len(),
        forall|j: int|
            0 <= j < s.len() ==> sample_int_value(s[j]) == if j == k {
                1int
            } else {
                0int
            },
    ensures
        sum_values(s) == 1,
    decreases s.len(),
{
    if k == s.len() - 1 {
        lemma_sum_all_zero(s.drop_last());
    } else {
        lemma_sum_indicator(s.drop_last(), k);
    }
}

/// One-hot decode law. Decoding a recognized value against a duplicate-free
/// vocabulary of size n yields exactly n samples; the sample at the first
/// index of the value is 1, every other sample is 0, and the values sum
/// to 1. Decoding an unrecognized value yields no samples at all.
pub proof fn lemma_one_hot_decode(
    id: MetricId,
    base: Seq<Seq<char>>,
    vocab: Seq<Seq<char>>,
    raw: Seq<char>,
)
    requires
        distinct_seq(vocab),
    ensures
        vocab.contains(raw) ==> one_hot_samples(id, base, vocab, raw).len() == vocab.len(),
        vocab.contains(raw) ==> {
            let s = one_hot_samples(id, base, vocab, raw);
            let k = vocab.index_of(raw);
            &&& 0 <= k < s.len()
            &&& s[k].value == SampleValue::Int(1i64)
            &&& forall|j: int|
                0 <= j < s.len() && j != k ==> s[j].value == SampleValue::Int(0i64)
            &&& sum_values(s) == 1
        },
        !vocab.contains(raw) ==> one_hot_samples(id, base, vocab, raw).len() == 0,
{
    if vocab.contains(raw) {
        let s = one_hot_samples(id, base, vocab, raw);
        let k = vocab.index_of(raw);
        assert(0 <= k < vocab.len() && vocab[k] == raw);
        assert(forall|j: int| 0 <= j < s.len() && j != k ==> vocab[j] != raw);
        assert(forall|j: int|
            0 <= j < s.len() ==> sample_int_value(s[j]) == if j == k {
                1int
            } else {
                0int
            });
        lemma_sum_indicator(s, k);
    }
}

#[verifier::rlimit(100)]
proof fn lemma_vocab_distinct_0()
    ensures
        distinct_seq(crate::aggregates::spec_mirror_state_vocab()),
{
    reveal_strlit("degraded");
    reveal_strlit("failed");
    reveal_strlit("normal");
    reveal_strlit("resynchronizing");
    reveal_strlit("unmirrored");
    assert("degraded"@.len() == 8);
    assert("failed"@.len() == 6);
    assert("normal"@.len() == 6);
    assert("resynchronizing"@.len() == 15);
    assert("unmirrored"@.len() == 10);
    assert("failed"@[0] == 'f');
    assert("normal"@[0] == 'n');
    assert("unmirrored"@ != "normal"@);
    assert("unmirrored"@ != "degraded"@);
    assert("unmirrored"@ != "resynchronizing"@);
    assert("unmirrored"@ != "failed"@);
    assert("normal"@ != "degraded"@);
    assert("normal"@ != "resynchronizing"@);
    assert("normal"@ != "failed"@);
    assert("degraded"@ != "resynchronizing"@);
    assert("degraded"@ != "failed"@);
    assert("resynchronizing"@ != "failed"@);
    let v = crate::aggregates::spec_mirror_state_vocab();
    assert forall|i: int, j: int| 0 <= i < j < v.len() implies v[i] != v[j] by {
    }
}

#[verifier::rlimit(100)]
proof fn lemma_vocab_distinct_1()
    ensures
        distinct_seq(crate::aggregates::spec_aggr_state_vocab()),
{
    reveal_strlit("failed");
    reveal_strlit("inconsistent");
    reveal_strlit("offline");
    reveal_strlit("offlining");
    reveal_strlit("online");
    reveal_strlit("onlining");
    reveal_strlit("relocating");
    reveal_strlit("restricted");
    reveal_strlit("unknown");
    reveal_strlit("unmounted");
    assert("failed"@.len() == 6);
    assert("inconsistent"@.len() == 12);
    assert("offline"@.len() == 7);
    assert("offlining"@.len() == 9);
    assert("online"@.len() == 6);
    assert("onlining"@.len() == 8);
    assert("relocating"@.len() == 10);
    assert("restricted"@.len() == 10);
    assert("unknown"@.len() == 7);
    assert("unmounted"@.len() == 9);
    assert("failed"@[0] == 'f');
    assert("offline"@[0] == 'o');
    assert("offlining"@[0] == 'o');
    assert("online"@[0] == 'o');
    assert("relocating"@[2] == 'l');
    assert("restricted"@[2] == 's');
    assert("unknown"@[0] == 'u');
    assert("unmounted"@[0] == 'u');
    assert("online"@ != "onlining"@);
    assert("online"@ != "offline"@);
    assert("online"@ != "offlining"@);
    assert("online"@ != "relocating"@);
    assert("online"@ != "unmounted"@);
    assert("online"@ != "restricted"@);
    assert("online"@ != "inconsistent"@);
    assert("online"@ != "failed"@);
    assert("online"@ != "unknown"@);
    assert("onlining"@ != "offline"@);
    assert("onlining"@ != "offlining"@);
    assert("onlining"@ != "relocating"@);
    assert("onlining"@ != "unmounted"@);
    assert("onlining"@ != "restricted"@);
    assert("onlining"@ != "inconsistent"@);
    assert("onlining"@ != "failed"@);
    assert("onlining"@ != "unknown"@);
    assert("offline"@ != "offlining"@);
    assert("offline"@ != "relocating"@);
    assert("offline"@ != "unmounted"@);
    assert("offline"@ != "restricted"@);
    assert("offline"@ != "inconsistent"@);
    assert("offline"@ != "failed"@);
    assert("offline"@ != "unknown"@);
    assert("offlining"@ != "relocating"@);
    assert("offlining"@ != "unmounted"@);
    assert("offlining"@ != "restricted"@);
    assert("offlining"@ != "inconsistent"@);
    assert("offlining"@ != "failed"@);
    assert("offlining"@ != "unknown"@);
    assert("relocating"@ != "unmounted"@);
    assert("relocating"@ != "restricted"@);
    assert("relocating"@ != "inconsistent"@);
    assert("relocating"@ != "failed"@);
    assert("relocating"@ != "unknown"@);
    assert("unmounted"@ != "restricted"@);
    assert("unmounted"@ != "inconsistent"@);
    assert("unmounted"@ != "failed"@);
    assert("unmounted"@ != "unknown"@);
    assert("restricted"@ != "inconsistent"@);
    assert("restricted"@ != "failed"@);
    assert("restricted"@ != "unknown"@);
    assert("inconsistent"@ != "failed"@);
    assert("inconsistent"@ != "unknown"@);
    assert("failed"@ != "unknown"@);
    let v = crate::aggregates::spec_aggr_state_vocab();
    assert forall|i: int, j: int| 0 <= i < j < v.len() implies v[i] != v[j] by {
    }
}

#[verifier::rlimit(100)]
proof fn lemma_vocab_distinct_2()
    ensures
        distinct_seq(crate::volumes::spec_vol_state_vocab()),
{
    reveal_strlit("error");
    reveal_strlit("mixed");
    reveal_strlit("offline");
    reveal_strlit("online");
    assert("error"@.len() == 5);
    assert("mixed"@.len() == 5);
    assert("offline"@.len() == 7);
    assert("online"@.len() == 6);
    assert("error"@[0] == 'e');
    assert("mixed"@[0] == 'm');
    assert("error"@ != "mixed"@);
    assert("error"@ != "online"@);
    assert("error"@ != "offline"@);
    assert("mixed"@ != "online"@);
    assert("mixed"@ != "offline"@);
    assert("online"@ != "offline"@);
    let v = crate::volumes::spec_vol_state_vocab();
    assert forall|i: int, j: int| 0 <= i < j < v.len() implies v[i] != v[j] by {
    }
}

#[verifier::rlimit(100)]
proof fn lemma_vocab_distinct_3()
    ensures
        distinct_seq(crate::volumes::spec_autosize_mode_vocab()),
{
    reveal_strlit("grow");
    reveal_strlit("grow_shrink");
    reveal_strlit("off");
    assert("grow"@.len() == 4);
    assert("grow_shrink"@.len() == 11);
    assert("off"@.len() == 3);
    assert("grow"@ != "grow_shrink"@);
    assert("grow"@ != "off"@);
    assert("grow_shrink"@ != "off"@);
    let v = crate::volumes::spec_autosize_mode_vocab();
    assert forall|i: int, j: int| 0 <= i < j < v.len() implies v[i] != v[j] by {
    }
}

#[verifier::rlimit(100)]
proof fn lemma_vocab_distinct_4()
    ensures
        distinct_seq(crate::volumes::spec_flexcache_endpoint_vocab()),
{
    reveal_strlit("cache");
    reveal_strlit("none");
    reveal_strlit("origin");
    assert("cache"@.len() == 5);
    assert("none"@.len() == 4);
    assert("origin"@.len() == 6);
    assert("none"@ != "cache"@);
    assert("none"@ != "origin"@);
    assert("cache"@ != "origin"@);
    let v = crate::volumes::spec_flexcache_endpoint_vocab();
    assert forall|i: int, j: int| 0 <= i < j < v.len() implies v[i] != v[j] by {
    }
}

#[verifier::rlimit(100)]
proof fn lemma_vocab_distinct_5()
    ensures
        distinct_seq(crate::volumes::spec_vol_type_vocab()),
{
    reveal_strlit("dp");
    reveal_strlit("ls");
    reveal_strlit("rw");
    assert("dp"@[0] == 'd');
    assert("ls"@[0] == 'l');
    assert("rw"@[0] == 'r');
    assert("rw"@ != "dp"@);
    assert("rw"@ != "ls"@);
    assert("dp"@ != "ls"@);
    let v = crate::volumes::spec_vol_type_vocab();
    assert forall|i: int, j: int| 0 <= i < j < v.len() implies v[i] != v[j] by {
    }
}

#[verifier::rlimit(100)]
proof fn lemma_vocab_distinct_6()
    ensures
        distinct_seq(crate::volumes::spec_cloud_retrieval_vocab()),
{
    reveal_strlit("default");
    reveal_strlit("never");
    reveal_strlit("on_read");
    reveal_strlit("promote");
    assert("default"@.len() == 7);
    assert("never"@.len() == 5);
    assert("on_read"@.len() == 7);
    assert("promote"@.len() == 7);
    assert("default"@[0] == 'd');
    assert("on_read"@[0] == 'o');
    assert("promote"@[0] == 'p');
    assert("default"@ != "on_read"@);
    assert("default"@ != "never"@);
    assert("default"@ != "promote"@);
    assert("on_read"@ != "never"@);
    assert("on_read"@ != "promote"@);
    assert("never"@ != "promote"@);
    let v = crate::volumes::spec_cloud_retrieval_vocab();
    assert forall|i: int, j: int| 0 <= i < j < v.len() implies v[i] != v[j] by {
    }
}

#[verifier::rlimit(100)]
proof fn lemma_vocab_distinct_7()
    ensures
        distinct_seq(crate::volumes::spec_quota_state_vocab()),
{
    reveal_strlit("corrupt");
    reveal_strlit("initializing");
    reveal_strlit("mixed");
    reveal_strlit("off");
    reveal_strlit("on");
    reveal_strlit("resizing");
    assert("corrupt"@.len() == 7);
    assert("initializing"@.len() == 12);
    assert("mixed"@.len() == 5);
    assert("off"@.len() == 3);
    assert("on"@.len() == 2);
    assert("resizing"@.len() == 8);
    assert("corrupt"@ != "initializing"@);
    assert("corrupt"@ != "mixed"@);
    assert("corrupt"@ != "off"@);
    assert("corrupt"@ != "on"@);
    assert("corrupt"@ != "resizing"@);
    assert("initializing"@ != "mixed"@);
    assert("initializing"@ != "off"@);
    assert("initializing"@ != "on"@);
    assert("initializing"@ != "resizing"@);
    assert("mixed"@ != "off"@);
    assert("mixed"@ != "on"@);
    assert("mixed"@ != "resizing"@);
    assert("off"@ != "on"@);
    assert("off"@ != "resizing"@);
    assert("on"@ != "resizing"@);
    let v = crate::volumes::spec_quota_state_vocab();
    assert forall|i: int, j: int| 0 <= i < j < v.len() implies v[i] != v[j] by {
    }
}

#[verifier::rlimit(100)]
proof fn lemma_vocab_distinct_8()
    ensures
        distinct_seq(crate::volumes::spec_efficiency_vocab()),
{
    reveal_strlit("background");
    reveal_strlit("both");
    reveal_strlit("inline");
    reveal_strlit("mixed");
    reveal_strlit("none");
    assert("background"@.len() == 10);
    assert("both"@.len() == 4);
    assert("inline"@.len() == 6);
    assert("mixed"@.len() == 5);
    assert("none"@.len() == 4);
    assert("both"@[0] == 'b');
    assert("none"@[0] == 'n');
    assert("inline"@ != "background"@);
    assert("inline"@ != "both"@);
    assert("inline"@ != "none"@);
    assert("inline"@ != "mixed"@);
    assert("background"@ != "both"@);
    assert("background"@ != "none"@);
    assert("background"@ != "mixed"@);
    assert("both"@ != "none"@);
    assert("both"@ != "mixed"@);
    assert("none"@ != "mixed"@);
    let v = crate::volumes::spec_efficiency_vocab();
    assert forall|i: int, j: int| 0 <= i < j < v.len() implies v[i] != v[j] by {
    }
}

#[verifier::rlimit(100)]
proof fn lemma_vocab_distinct_9()
    ensures
        distinct_seq(crate::volumes::spec_compaction_vocab()),
{
    reveal_strlit("inline");
    reveal_strlit("mixed");
    reveal_strlit("none");
    assert("inline"@.len() == 6);
    assert("mixed"@.len() == 5);
    assert("none"@.len() == 4);
    assert("inline"@ != "none"@);
    assert("inline"@ != "mixed"@);
    assert("none"@ != "mixed"@);
    let v = crate::volumes::spec_compaction_vocab();
    assert forall|i: int, j: int| 0 <= i < j < v.len() implies v[i] != v[j] by {
    }
}

#[verifier::rlimit(100)]
proof fn lemma_vocab_distinct_10()
    ensures
        distinct_seq(crate::volumes::spec_snaplock_type_vocab()),
{
    reveal_strlit("compliance");
    reveal_strlit("enterprise");
    reveal_strlit("non_snaplock");
    assert("compliance"@.len() == 10);
    assert("enterprise"@.len() == 10);
    assert("non_snaplock"@.len() == 12);
    assert("compliance"@[0] == 'c');
    assert("enterprise"@[0] == 'e');
    assert("compliance"@ != "enterprise"@);
    assert("compliance"@ != "non_snaplock"@);
    assert("enterprise"@ != "non_snaplock"@);
    let v = crate::volumes::spec_snaplock_type_vocab();
    assert forall|i: int, j: int| 0 <= i < j < v.len() implies v[i] != v[j] by {
    }
}

#[verifier::rlimit(100)]
proof fn lemma_vocab_distinct_11()
    ensures
        distinct_seq(crate::volumes::spec_privileged_delete_vocab()),
{
    reveal_strlit("disabled");
    reveal_strlit("enabled");
    reveal_strlit("permanently_disabled");
    assert("disabled"@.len() == 8);
    assert("enabled"@.len() == 7);
    assert("permanently_disabled"@.len() == 20);
    assert("disabled"@ != "enabled"@);
    assert("disabled"@ != "permanently_disabled"@);
    assert("enabled"@ != "permanently_disabled"@);
    let v = crate::volumes::spec_privileged_delete_vocab();
    assert forall|i: int, j: int| 0 <= i < j < v.len() implies v[i] != v[j] by {
    }
}

#[verifier::rlimit(100)]
proof fn lemma_vocab_distinct_12()
    ensures
        distinct_seq(crate::volumes::spec_tiering_policy_vocab()),
{
    reveal_strlit("all");
    reveal_strlit("auto");
    reveal_strlit("backup");
    reveal_strlit("none");
    reveal_strlit("snapshot_only");
    assert("all"@.len() == 3);
    assert("auto"@.len() == 4);
    assert("backup"@.len() == 6);
    assert("none"@.len() == 4);
    assert("snapshot_only"@.len() == 13);
    assert("auto"@[0] == 'a');
    assert("none"@[0] == 'n');
    assert("all"@ != "auto"@);
    assert("all"@ != "backup"@);
    assert("all"@ != "none"@);
    assert("all"@ != "snapshot_only"@);
    assert("auto"@ != "backup"@);
    assert("auto"@ != "none"@);
    assert("auto"@ != "snapshot_only"@);
    assert("backup"@ != "none"@);
    assert("backup"@ != "snapshot_only"@);
    assert("none"@ != "snapshot_only"@);
    let v = crate::volumes::spec_tiering_policy_vocab();
    assert forall|i: int, j: int| 0 <= i < j < v.len() implies v[i] != v[j] by {
    }
}

#[verifier::rlimit(100)]
proof fn lemma_vocab_distinct_13()
    ensures
        distinct_seq(crate::volumes::spec_movement_state_vocab()),
{
    reveal_strlit("aborted");
    reveal_strlit("cutover");
    reveal_strlit("cutover_pending");
    reveal_strlit("cutover_wait");
    reveal_strlit("failed");
    reveal_strlit("paused");
    reveal_strlit("queued");
    reveal_strlit("replicating");
    reveal_strlit("success");
    assert("aborted"@.len() == 7);
    assert("cutover"@.len() == 7);
    assert("cutover_pending"@.len() == 15);
    assert("cutover_wait"@.len() == 12);
    assert("failed"@.len() == 6);
    assert("paused"@.len() == 6);
    assert("queued"@.len() == 6);
    assert("replicating"@.len() == 11);
    assert("success"@.len() == 7);
    assert("aborted"@[0] == 'a');
    assert("cutover"@[0] == 'c');
    assert("failed"@[0] == 'f');
    assert("paused"@[0] == 'p');
    assert("queued"@[0] == 'q');
    assert("success"@[0] == 's');
    assert("aborted"@ != "cutover"@);
    assert("aborted"@ != "cutover_wait"@);
    assert("aborted"@ != "cutover_pending"@);
    assert("aborted"@ != "failed"@);
    assert("aborted"@ != "paused"@);
    assert("aborted"@ != "queued"@);
    assert("aborted"@ != "replicating"@);
    assert("aborted"@ != "success"@);
    assert("cutover"@ != "cutover_wait"@);
    assert("cutover"@ != "cutover_pending"@);
    assert("cutover"@ != "failed"@);
    assert("cutover"@ != "paused"@);
    assert("cutover"@ != "queued"@);
    assert("cutover"@ != "replicating"@);
    assert("cutover"@ != "success"@);
    assert("cutover_wait"@ != "cutover_pending"@);
    assert("cutover_wait"@ != "failed"@);
    assert("cutover_wait"@ != "paused"@);
    assert("cutover_wait"@ != "queued"@);
    assert("cutover_wait"@ != "replicating"@);
    assert("cutover_wait"@ != "success"@);
    assert("cutover_pending"@ != "failed"@);
    assert("cutover_pending"@ != "paused"@);
    assert("cutover_pending"@ != "queued"@);
    assert("cutover_pending"@ != "replicating"@);
    assert("cutover_pending"@ != "success"@);
    assert("failed"@ != "paused"@);
    assert("failed"@ != "queued"@);
    assert("failed"@ != "replicating"@);
    assert("failed"@ != "success"@);
    assert("paused"@ != "queued"@);
    assert("paused"@ != "replicating"@);
    assert("paused"@ != "success"@);
    assert("queued"@ != "replicating"@);
    assert("queued"@ != "success"@);
    assert("replicating"@ != "success"@);
    let v = crate::volumes::spec_movement_state_vocab();
    assert forall|i: int, j: int| 0 <= i < j < v.len() implies v[i] != v[j] by {
    }
}

#[verifier::rlimit(100)]
proof fn lemma_vocab_distinct_14()
    ensures
        distinct_seq(crate::volumes::spec_style_vocab()),
{
    reveal_strlit("flexgroup");
    reveal_strlit("flexvol");
    assert("flexgroup"@.len() == 9);
    assert("flexvol"@.len() == 7);
    assert("flexvol"@ != "flexgroup"@);
    let v = crate::volumes::spec_style_vocab();
    assert forall|i: int, j: int| 0 <= i < j < v.len() implies v[i] != v[j] by {
    }
}

#[verifier::rlimit(100)]
proof fn lemma_vocab_distinct_15()
    ensures
        distinct_seq(crate::volumes::spec_enc_type_vocab()),
{
    reveal_strlit("aggregate");
    reveal_strlit("none");
    reveal_strlit("volume");
    assert("aggregate"@.len() == 9);
    assert("none"@.len() == 4);
    assert("volume"@.len() == 6);
    assert("none"@ != "volume"@);
    assert("none"@ != "aggregate"@);
    assert("volume"@ != "aggregate"@);
    let v = crate::volumes::spec_enc_type_vocab();
    assert forall|i: int, j: int| 0 <= i < j < v.len() implies v[i] != v[j] by {
    }
}

#[verifier::rlimit(100)]
proof fn lemma_vocab_distinct_16()
    ensures
        distinct_seq(crate::volumes::spec_enc_state_vocab()),
{
    reveal_strlit("encrypted");
    reveal_strlit("encrypting");
    reveal_strlit("partial");
    reveal_strlit("rekeying");
    reveal_strlit("unencrypted");
    assert("encrypted"@.len() == 9);
    assert("encrypting"@.len() == 10);
    assert("partial"@.len() == 7);
    assert("rekeying"@.len() == 8);
    assert("unencrypted"@.len() == 11);
    assert("encrypted"@ != "encrypting"@);
    assert("encrypted"@ != "partial"@);
    assert("encrypted"@ != "rekeying"@);
    assert("encrypted"@ != "unencrypted"@);
    assert("encrypting"@ != "partial"@);
    assert("encrypting"@ != "rekeying"@);
    assert("encrypting"@ != "unencrypted"@);
    assert("partial"@ != "rekeying"@);
    assert("partial"@ != "unencrypted"@);
    assert("rekeying"@ != "unencrypted"@);
    let v = crate::volumes::spec_enc_state_vocab();
    assert forall|i: int, j: int| 0 <= i < j < v.len() implies v[i] != v[j] by {
    }
}

#[verifier::rlimit(100)]
proof fn lemma_vocab_distinct_17()
    ensures
        distinct_seq(crate::chassis::spec_chassis_state_vocab()),
{
    reveal_strlit("error");
    reveal_strlit("ok");
    assert("error"@.len() == 5);
    assert("ok"@.len() == 2);
    assert("ok"@ != "error"@);
    let v = crate::chassis::spec_chassis_state_vocab();
    assert forall|i: int, j: int| 0 <= i < j < v.len() implies v[i] != v[j] by {
    }
}

#[verifier::rlimit(100)]
proof fn lemma_vocab_distinct_18()
    ensures
        distinct_seq(crate::ethernet::spec_eth_type_vocab()),
{
    reveal_strlit("lag");
    reveal_strlit("physical");
    reveal_strlit("vlan");
    assert("lag"@.len() == 3);
    assert("physical"@.len() == 8);
    assert("vlan"@.len() == 4);
    assert("vlan"@ != "physical"@);
    assert("vlan"@ != "lag"@);
    assert("physical"@ != "lag"@);
    let v = crate::ethernet::spec_eth_type_vocab();
    assert forall|i: int, j: int| 0 <= i < j < v.len() implies v[i] != v[j] by {
    }
}

#[verifier::rlimit(100)]
proof fn lemma_vocab_distinct_19()
    ensures
        distinct_seq(crate::fibrechannel::spec_fc_state_vocab()),
{
    reveal_strlit("link_disconnected");
    reveal_strlit("link_not_connected");
    reveal_strlit("node_offline");
    reveal_strlit("offlined_by_system");
    reveal_strlit("offlined_by_user");
    reveal_strlit("online");
    reveal_strlit("startup");
    assert("link_disconnected"@.len() == 17);
    assert("link_not_connected"@.len() == 18);
    assert("node_offline"@.len() == 12);
    assert("offlined_by_system"@.len() == 18);
    assert("offlined_by_user"@.len() == 16);
    assert("online"@.len() == 6);
    assert("startup"@.len() == 7);
    assert("link_not_connected"@[0] == 'l');
    assert("offlined_by_system"@[0] == 'o');
    assert("startup"@ != "link_not_connected"@);
    assert("startup"@ != "online"@);
    assert("startup"@ != "link_disconnected"@);
    assert("startup"@ != "offlined_by_user"@);
    assert("startup"@ != "offlined_by_system"@);
    assert("startup"@ != "node_offline"@);
    assert("link_not_connected"@ != "online"@);
    assert("link_not_connected"@ != "link_disconnected"@);
    assert("link_not_connected"@ != "offlined_by_user"@);
    assert("link_not_connected"@ != "offlined_by_system"@);
    assert("link_not_connected"@ != "node_offline"@);
    assert("online"@ != "link_disconnected"@);
    assert("online"@ != "offlined_by_user"@);
    assert("online"@ != "offlined_by_system"@);
    assert("online"@ != "node_offline"@);
    assert("link_disconnected"@ != "offlined_by_user"@);
    assert("link_disconnected"@ != "offlined_by_system"@);
    assert("link_disconnected"@ != "node_offline"@);
    assert("offlined_by_user"@ != "offlined_by_system"@);
    assert("offlined_by_user"@ != "node_offline"@);
    assert("offlined_by_system"@ != "node_offline"@);
    let v = crate::fibrechannel::spec_fc_state_vocab();
    assert forall|i: int, j: int| 0 <= i < j < v.len() implies v[i] != v[j] by {
    }
}

#[verifier::rlimit(100)]
proof fn lemma_vocab_distinct_20()
    ensures
        distinct_seq(crate::fibrechannel::spec_fc_protocol_vocab()),
{
    reveal_strlit("ethernet");
    reveal_strlit("fibre_channel");
    assert("ethernet"@.len() == 8);
    assert("fibre_channel"@.len() == 13);
    assert("fibre_channel"@ != "ethernet"@);
    let v = crate::fibrechannel::spec_fc_protocol_vocab();
    assert forall|i: int, j: int| 0 <= i < j < v.len() implies v[i] != v[j] by {
    }
}

/// Every closed vocabulary the collectors decode against is duplicate
/// free, so the one-hot decode law applies to each of them.
pub proof fn lemma_vocabularies_distinct()
    ensures
        distinct_seq(crate::aggregates::spec_mirror_state_vocab()),
        distinct_seq(crate::aggregates::spec_aggr_state_vocab()),
        distinct_seq(crate::volumes::spec_vol_state_vocab()),
        distinct_seq(crate::volumes::spec_autosize_mode_vocab()),
        distinct_seq(crate::volumes::spec_flexcache_endpoint_vocab()),
        distinct_seq(crate::volumes::spec_vol_type_vocab()),
        distinct_seq(crate::volumes::spec_cloud_retrieval_vocab()),
        distinct_seq(crate::volumes::spec_quota_state_vocab()),
        distinct_seq(crate::volumes::spec_efficiency_vocab()),
        distinct_seq(crate::volumes::spec_compaction_vocab()),
        distinct_seq(crate::volumes::spec_snaplock_type_vocab()),
        distinct_seq(crate::volumes::spec_privileged_delete_vocab()),
        distinct_seq(crate::volumes::spec_tiering_policy_vocab()),
        distinct_seq(crate::volumes::spec_movement_state_vocab()),
        distinct_seq(crate::volumes::spec_style_vocab()),
        distinct_seq(crate::volumes::spec_enc_type_vocab()),
        distinct_seq(crate::volumes::spec_enc_state_vocab()),
        distinct_seq(crate::chassis::spec_chassis_state_vocab()),
        distinct_seq(crate::ethernet::spec_eth_type_vocab()),
        distinct_seq(crate::fibrechannel::spec_fc_state_vocab()),
        distinct_seq(crate::fibrechannel::spec_fc_protocol_vocab()),
{
    lemma_vocab_distinct_0();
    lemma_vocab_distinct_1();
    lemma_vocab_distinct_2();
    lemma_vocab_distinct_3();
    lemma_vocab_distinct_4();
    lemma_vocab_distinct_5();
    lemma_vocab_distinct_6();
    lemma_vocab_distinct_7();
    lemma_vocab_distinct_8();
    lemma_vocab_distinct_9();
    lemma_vocab_distinct_10();
    lemma_vocab_distinct_11();
    lemma_vocab_distinct_12();
    lemma_vocab_distinct_13();
    lemma_vocab_distinct_14();
    lemma_vocab_distinct_15();
    lemma_vocab_distinct_16();
    lemma_vocab_distinct_17();
    lemma_vocab_distinct_18();
    lemma_vocab_distinct_19();
    lemma_vocab_distinct_20();
}

} // verus!
