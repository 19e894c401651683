use vstd::prelude::*;

use crate::counter::{counter_step, push_counter_series, CounterKeyView, CounterState};
use crate::decode::{one_hot_samples, push_one_hot, string_eq};
use crate::sample::{
    bool_to_i64, clone_labels, gauge_sv, labels3, push_bool_gauge, MetricId, Sample, SampleView,
};

verus! {

pub struct PortList {
    pub records: Vec<Port>,
}

/// One fibre-channel port as reported by the device; the statistics block
/// exists only on newer firmware.
pub struct Port {
    pub node: PortNode,
    pub enabled: bool,
    pub name: String,
    pub state: String,
    pub statistics: Option<PortStatistics>,
    pub physical_protocol: String,
}

pub struct PortNode {
    pub name: String,
}

pub struct PortStatistics {
    pub status: String,
    pub throughput_raw: PortStatisticsThroughputRaw,
}

pub struct PortStatisticsThroughputRaw {
    pub read: u64,
    pub write: u64,
    pub total: u64,
}

/// The closed vocabulary of fibre-channel port states.
pub open spec fn spec_fc_state_vocab() -> Seq<Seq<char>> {
    seq![
        "startup"@,
        "link_not_connected"@,
        "online"@,
        "link_disconnected"@,
        "offlined_by_user"@,
        "offlined_by_system"@,
        "node_offline"@,
    ]
}

fn fc_state_vocabulary() -> (v: Vec<String>)
    ensures
        v.deep_view() == spec_fc_state_vocab(),
{
    let mut v: Vec<String> = Vec::new();
    v.push("startup".to_owned());
    v.push("link_not_connected".to_owned());
    v.push("online".to_owned());
    v.push("link_disconnected".to_owned());
    v.push("offlined_by_user".to_owned());
    v.push("offlined_by_system".to_owned());
    v.push("node_offline".to_owned());
    proof {
        assert(v.deep_view() =~= spec_fc_state_vocab());
    }
    v
}

/// The closed vocabulary of physical network protocols.
pub open spec fn spec_fc_protocol_vocab() -> Seq<Seq<char>> {
    seq!["fibre_channel"@, "ethernet"@]
}

fn fc_protocol_vocabulary() -> (v: Vec<String>)
    ensures
        v.deep_view() == spec_fc_protocol_vocab(),
{
    let mut v: Vec<String> = Vec::new();
    v.push("fibre_channel".to_owned());
    v.push("ethernet".to_owned());
    proof {
        assert(v.deep_view() =~= spec_fc_protocol_vocab());
    }
    v
}

/// The throughput counters of one port, reconciled only when the block's
/// status is "ok".
pub open spec fn fc_stat_samples(
    m0: Map<CounterKeyView, (u64, u64)>,
    base: Seq<Seq<char>>,
    p: Port,
) -> (Map<CounterKeyView, (u64, u64)>, Seq<SampleView>) {
    match p.statistics {
        Some(st) => if st.status@ == "ok"@ {
            let (m1, s1) = counter_step(m0, MetricId::FcReceiveBytes, base, st.throughput_raw.read);
            let (m2, s2) = counter_step(m1, MetricId::FcTransmitBytes, base, st.throughput_raw.write);
            (m2, seq![s1, s2])
        } else {
            (m0, Seq::empty())
        },
        None => (m0, Seq::empty()),
    }
}

/// All samples of one fibre-channel port record.
pub open spec fn fc_port_samples(
    filer: Seq<char>,
    m0: Map<CounterKeyView, (u64, u64)>,
    p: Port,
) -> (Map<CounterKeyView, (u64, u64)>, Seq<SampleView>) {
    let base = seq![filer, p.node.name@, p.name@];
    let head = one_hot_samples(MetricId::FcState, base, spec_fc_state_vocab(), p.state@) + seq![
        gauge_sv(MetricId::FcEnabled, base, bool_to_i64(p.enabled)),
    ];
    let (m1, stat) = fc_stat_samples(m0, base, p);
    let tail = one_hot_samples(
        MetricId::FcPhysicalProtocol,
        base,
        spec_fc_protocol_vocab(),
        p.physical_protocol@,
    );
    (m1, head + stat + tail)
}

/// All samples of a list of fibre-channel port records, threading the
/// counter map through the ports in order.
pub open spec fn fc_fold(
    filer: Seq<char>,
    recs: Seq<Port>,
    m0: Map<CounterKeyView, (u64, u64)>,
) -> (Map<CounterKeyView, (u64, u64)>, Seq<SampleView>)
    decreases recs.len(),
{
    if recs.len() == 0 {
        (m0, Seq::empty())
    } else {
        let (m1, s1) = fc_fold(filer, recs.drop_last(), m0);
        let (m2, s2) = fc_port_samples(filer, m1, recs.last());
        (m2, s1 + s2)
    }
}

#[verifier::rlimit(60)]
fn push_fc_port(
    out: &mut Vec<Sample>,
    counters: &mut CounterState,
    filer: &String,
    p: &Port,
    state_vocab: &Vec<String>,
    protocol_vocab: &Vec<String>,
)
    requires
        old(counters).wf(),
        state_vocab.deep_view() == spec_fc_state_vocab(),
        protocol_vocab.deep_view() == spec_fc_protocol_vocab(),
    ensures
        final(counters).wf(),
        crate::counter::spec_counters(*final(counters)) == fc_port_samples(
            filer@,
            crate::counter::spec_counters(*old(counters)),
            *p,
        ).0,
        final(out).deep_view() == old(out).deep_view() + fc_port_samples(
            filer@,
            crate::counter::spec_counters(*old(counters)),
            *p,
        ).1,
{
    let ghost start = out.deep_view();
    let base = labels3(filer, &p.node.name, &p.name);
    push_one_hot(out, MetricId::FcState, &base, state_vocab, &p.state);
    push_bool_gauge(out, MetricId::FcEnabled, clone_labels(&base), p.enabled);
    if let Some(st) = &p.statistics {
        if string_eq(&st.status, &"ok".to_owned()) {
            push_counter_series(
                out,
                counters,
                MetricId::FcReceiveBytes,
                &base,
                st.throughput_raw.read,
            );
            push_counter_series(
                out,
                counters,
                MetricId::FcTransmitBytes,
                &base,
                st.throughput_raw.write,
            );
        }
    }
    push_one_hot(out, MetricId::FcPhysicalProtocol, &base, protocol_vocab, &p.physical_protocol);
    proof {
        assert(out.deep_view() =~= start + fc_port_samples(
            filer@,
            crate::counter::spec_counters(*old(counters)),
            *p,
        ).1);
    }
}

/// Decode and publish the samples of every fibre-channel port record of
/// one storage system, reconciling its cumulative counters.
pub fn update_fibrechannel(
    filer_name: &String,
    list: &PortList,
    counters: &mut CounterState,
) -> (samples: Vec<Sample>)
    requires
        old(counters).wf(),
    ensures
        final(counters).wf(),
        crate::counter::spec_counters(*final(counters)) == fc_fold(
            filer_name@,
            list.records@,
            crate::counter::spec_counters(*old(counters)),
        ).0,
        samples.deep_view() == fc_fold(
            filer_name@,
            list.records@,
            crate::counter::spec_counters(*old(counters)),
        ).1,
{
    let state_vocab = fc_state_vocabulary();
    let protocol_vocab = fc_protocol_vocabulary();
    let mut out: Vec<Sample> = Vec::new();
    proof {
        assert(out.deep_view() =~= Seq::<SampleView>::empty());
    }
    let ghost m0 = crate::counter::spec_counters(*counters);
    let n = list.records.len();
    let mut i: usize = 0;
    while i < n
        invariant
            i <= n,
            n == list.records@.len(),
            counters.wf(),
            state_vocab.deep_view() == spec_fc_state_vocab(),
            protocol_vocab.deep_view() == spec_fc_protocol_vocab(),
            m0 == crate::counter::spec_counters(*old(counters)),
            crate::counter::spec_counters(*counters) == fc_fold(
                filer_name@,
                list.records@.take(i as int),
                m0,
            ).0,
            out.deep_view() == fc_fold(filer_name@, list.records@.take(i as int), m0).1,
        decreases n - i,
    {
        push_fc_port(&mut out, counters, filer_name, &list.records[i], &state_vocab, &protocol_vocab);
        proof {
            assert(list.records@.take(i as int + 1).drop_last() =~= list.records@.take(i as int));
            assert(list.records@.take(i as int + 1).last() == list.records@[i as int]);
        }
        i = i + 1;
    }
    proof {
        assert(list.records@.take(n as int) =~= list.records@);
    }
    out
}

} // verus!
