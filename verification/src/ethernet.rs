use vstd::prelude::*;

use crate::arith::{clip_i64, sat_mul_i64};
use crate::counter::{counter_step, push_counter_series, CounterKeyView, CounterState};
use crate::decode::{one_hot_samples, push_one_hot, string_eq};
use crate::sample::{
    bool_to_i64, clone_labels, gauge_sv, labels3, push_bool_gauge, push_gauge, MetricId, Sample,
    SampleView,
};

verus! {

pub struct PortList {
    pub records: Vec<Port>,
}

/// One ethernet port as reported by the device; the statistics block
/// exists only on newer firmware.
pub struct Port {
    pub node: PortNode,
    pub mac_address: String,
    pub enabled: bool,
    pub speed: i64,
    pub mtu: i64,
    pub name: String,
    pub state: String,
    pub port_type: String,
    pub statistics: Option<PortStatistics>,
}

pub struct PortNode {
    pub name: String,
}

pub struct PortStatistics {
    pub status: String,
    pub device: PortStatisticsDevice,
    pub throughput_raw: PortStatisticsThroughputRaw,
}

pub struct PortStatisticsThroughputRaw {
    pub read: u64,
    pub write: u64,
    pub total: u64,
}

pub struct PortStatisticsDevice {
    pub receive_raw: PortStatisticsCounters,
    pub transmit_raw: PortStatisticsCounters,
    pub link_down_count_raw: i64,
}

pub struct PortStatisticsCounters {
    pub errors: u64,
    pub discards: u64,
    pub packets: u64,
}

/// The closed vocabulary of port types.
pub open spec fn spec_eth_type_vocab() -> Seq<Seq<char>> {
    seq!["vlan"@, "physical"@, "lag"@]
}

fn eth_type_vocabulary() -> (v: Vec<String>)
    ensures
        v.deep_view() == spec_eth_type_vocab(),
{
    let mut v: Vec<String> = Vec::new();
    v.push("vlan".to_owned());
    v.push("physical".to_owned());
    v.push("lag".to_owned());
    proof {
        assert(v.deep_view() =~= spec_eth_type_vocab());
    }
    v
}

/// The device error/discard/packet counters of one port, reconciled in
/// order: receive errors, discards, packets, then transmit errors,
/// discards, packets.
pub open spec fn eth_device_counters(
    m0: Map<CounterKeyView, (u64, u64)>,
    base: Seq<Seq<char>>,
    d: PortStatisticsDevice,
) -> (Map<CounterKeyView, (u64, u64)>, Seq<SampleView>) {
    let (m1, s1) = counter_step(m0, MetricId::EthReceiveErrors, base, d.receive_raw.errors);
    let (m2, s2) = counter_step(m1, MetricId::EthReceiveDiscards, base, d.receive_raw.discards);
    let (m3, s3) = counter_step(m2, MetricId::EthReceivePackets, base, d.receive_raw.packets);
    let (m4, s4) = counter_step(m3, MetricId::EthTransmitErrors, base, d.transmit_raw.errors);
    let (m5, s5) = counter_step(m4, MetricId::EthTransmitDiscards, base, d.transmit_raw.discards);
    let (m6, s6) = counter_step(m5, MetricId::EthTransmitPackets, base, d.transmit_raw.packets);
    (m6, seq![s1, s2, s3, s4, s5, s6])
}

/// The statistics samples of one port: throughput counters only when the
/// block's status is "ok", then the device counters.
pub open spec fn eth_stat_samples(
    m0: Map<CounterKeyView, (u64, u64)>,
    base: Seq<Seq<char>>,
    p: Port,
) -> (Map<CounterKeyView, (u64, u64)>, Seq<SampleView>) {
    match p.statistics {
        Some(st) => {
            let (m1, head) = if st.status@ == "ok"@ {
                let (ma, s1) = counter_step(m0, MetricId::EthReceiveBytes, base, st.throughput_raw.read);
                let (mb, s2) = counter_step(
                    ma,
                    MetricId::EthTransmitBytes,
                    base,
                    st.throughput_raw.write,
                );
                (mb, seq![s1, s2])
            } else {
                (m0, Seq::<SampleView>::empty())
            };
            let (m2, dev) = eth_device_counters(m1, base, st.device);
            (m2, head + dev)
        },
        None => (m0, Seq::empty()),
    }
}

/// All samples of one ethernet port record. The speed gauge carries the
/// reported link speed scaled by 1026, as the exporter has always exposed
/// it; the up gauge is published only for the recognized states "up" and
/// "down".
pub open spec fn eth_port_samples(
    filer: Seq<char>,
    m0: Map<CounterKeyView, (u64, u64)>,
    p: Port,
) -> (Map<CounterKeyView, (u64, u64)>, Seq<SampleView>) {
    let base = seq![filer, p.node.name@, p.name@];
    let head = seq![
        gauge_sv(MetricId::EthEnabled, base, bool_to_i64(p.enabled)),
        gauge_sv(MetricId::EthSpeed, base, clip_i64(p.speed * 1026)),
        gauge_sv(MetricId::EthMtu, base, p.mtu),
    ] + (if p.state@ == "up"@ {
        seq![gauge_sv(MetricId::EthUp, base, 1i64)]
    } else if p.state@ == "down"@ {
        seq![gauge_sv(MetricId::EthUp, base, 0i64)]
    } else {
        Seq::<SampleView>::empty()
    }) + one_hot_samples(MetricId::EthType, base, spec_eth_type_vocab(), p.port_type@);
    let (m1, stat) = eth_stat_samples(m0, base, p);
    (m1, head + stat)
}

/// All samples of a list of ethernet port records, threading the counter
/// map through the ports in order.
pub open spec fn eth_fold(
    filer: Seq<char>,
    recs: Seq<Port>,
    m0: Map<CounterKeyView, (u64, u64)>,
) -> (Map<CounterKeyView, (u64, u64)>, Seq<SampleView>)
    decreases recs.len(),
{
    if recs.len() == 0 {
        (m0, Seq::empty())
    } else {
        let (m1, s1) = eth_fold(filer, recs.drop_last(), m0);
        let (m2, s2) = eth_port_samples(filer, m1, recs.last());
        (m2, s1 + s2)
    }
}

fn push_eth_stats(
    out: &mut Vec<Sample>,
    counters: &mut CounterState,
    base: &Vec<String>,
    p: &Port,
)
    requires
        old(counters).wf(),
    ensures
        final(counters).wf(),
        crate::counter::spec_counters(*final(counters)) == eth_stat_samples(
            crate::counter::spec_counters(*old(counters)),
            base.deep_view(),
            *p,
        ).0,
        final(out).deep_view() == old(out).deep_view() + eth_stat_samples(
            crate::counter::spec_counters(*old(counters)),
            base.deep_view(),
            *p,
        ).1,
{
    let ghost start = out.deep_view();
    if let Some(st) = &p.statistics {
        if string_eq(&st.status, &"ok".to_owned()) {
            push_counter_series(out, counters, MetricId::EthReceiveBytes, base, st.throughput_raw.read);
            push_counter_series(out, counters, MetricId::EthTransmitBytes, base, st.throughput_raw.write);
        }
        push_counter_series(out, counters, MetricId::EthReceiveErrors, base, st.device.receive_raw.errors);
        push_counter_series(
            out,
            counters,
            MetricId::EthReceiveDiscards,
            base,
            st.device.receive_raw.discards,
        );
        push_counter_series(out, counters, MetricId::EthReceivePackets, base, st.device.receive_raw.packets);
        push_counter_series(
            out,
            counters,
            MetricId::EthTransmitErrors,
            base,
            st.device.transmit_raw.errors,
        );
        push_counter_series(
            out,
            counters,
            MetricId::EthTransmitDiscards,
            base,
            st.device.transmit_raw.discards,
        );
        push_counter_series(
            out,
            counters,
            MetricId::EthTransmitPackets,
            base,
            st.device.transmit_raw.packets,
        );
    }
    proof {
        assert(out.deep_view() =~= start + eth_stat_samples(
            crate::counter::spec_counters(*old(counters)),
            base.deep_view(),
            *p,
        ).1);
    }
}

#[verifier::rlimit(60)]
fn push_eth_port(
    out: &mut Vec<Sample>,
    counters: &mut CounterState,
    filer: &String,
    p: &Port,
    type_vocab: &Vec<String>,
)
    requires
        old(counters).wf(),
        type_vocab.deep_view() == spec_eth_type_vocab(),
    ensures
        final(counters).wf(),
        crate::counter::spec_counters(*final(counters)) == eth_port_samples(
            filer@,
            crate::counter::spec_counters(*old(counters)),
            *p,
        ).0,
        final(out).deep_view() == old(out).deep_view() + eth_port_samples(
            filer@,
            crate::counter::spec_counters(*old(counters)),
            *p,
        ).1,
{
    let ghost start = out.deep_view();
    let base = labels3(filer, &p.node.name, &p.name);
    push_bool_gauge(out, MetricId::EthEnabled, clone_labels(&base), p.enabled);
    push_gauge(out, MetricId::EthSpeed, clone_labels(&base), sat_mul_i64(p.speed, 1026));
    push_gauge(out, MetricId::EthMtu, clone_labels(&base), p.mtu);
    if string_eq(&p.state, &"up".to_owned()) {
        push_gauge(out, MetricId::EthUp, clone_labels(&base), 1);
    } else if string_eq(&p.state, &"down".to_owned()) {
        push_gauge(out, MetricId::EthUp, clone_labels(&base), 0);
    }
    push_one_hot(out, MetricId::EthType, &base, type_vocab, &p.port_type);
    push_eth_stats(out, counters, &base, p);
    proof {
        assert(out.deep_view() =~= start + eth_port_samples(
            filer@,
            crate::counter::spec_counters(*old(counters)),
            *p,
        ).1);
    }
}

/// Decode and publish the samples of every ethernet port record of one
/// storage system, reconciling its cumulative counters.
pub fn update_ethernet(
    filer_name: &String,
    list: &PortList,
    counters: &mut CounterState,
) -> (samples: Vec<Sample>)
    requires
        old(counters).wf(),
    ensures
        final(counters).wf(),
        crate::counter::spec_counters(*final(counters)) == eth_fold(
            filer_name@,
            list.records@,
            crate::counter::spec_counters(*old(counters)),
        ).0,
        samples.deep_view() == eth_fold(
            filer_name@,
            list.records@,
            crate::counter::spec_counters(*old(counters)),
        ).1,
{
    let type_vocab = eth_type_vocabulary();
    let mut out: Vec<Sample> = Vec::new();
    proof {
        assert(out.deep_view() =~= Seq::<SampleView>::empty());
    }
    let ghost m0 = crate::counter::spec_counters(*counters);
    let n = list.records.len();
    let mut i: usize = 0;
    while i < n
        invariant
            i <= n,
            n == list.records@.len(),
            counters.wf(),
            type_vocab.deep_view() == spec_eth_type_vocab(),
            m0 == crate::counter::spec_counters(*old(counters)),
            crate::counter::spec_counters(*counters) == eth_fold(
                filer_name@,
                list.records@.take(i as int),
                m0,
            ).0,
            out.deep_view() == eth_fold(filer_name@, list.records@.take(i as int), m0).1,
        decreases n - i,
    {
        push_eth_port(&mut out, counters, filer_name, &list.records[i], &type_vocab);
        proof {
            assert(list.records@.take(i as int + 1).drop_last() =~= list.records@.take(i as int));
            assert(list.records@.take(i as int + 1).last() == list.records@[i as int]);
        }
        i = i + 1;
    }
    proof {
        assert(list.records@.take(n as int) =~= list.records@);
    }
    out
}

} // verus!
