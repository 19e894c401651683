use vstd::prelude::*;

use crate::arith::clip_i64;
use crate::arith::len_i64;
use crate::decode::{one_hot_samples, push_one_hot};
use crate::sample::{
    bool_to_i64, clone_labels, gauge_sv, labels2, labels4, opt_gauge_sv, push_bool_gauge,
    push_gauge, MetricId, Sample, SampleView,
};

verus! {

pub struct ChassisList {
    pub records: Vec<Chassis>,
}

/// One chassis as reported by the device.
pub struct Chassis {
    pub id: String,
    pub state: String,
    pub shelves: Option<Vec<ChassisShelves>>,
    pub nodes: Option<Vec<ChassisNodes>>,
    pub frus: Option<Vec<ChassisFRU>>,
    pub usbs: Option<ChassisUSB>,
}

pub struct ChassisShelves {
    pub uid: String,
}

pub struct ChassisNodes {
    pub uuid: String,
}

pub struct ChassisFRU {
    pub state: String,
    pub id: String,
    pub fru_type: String,
}

pub struct ChassisUSB {
    pub supported: bool,
    pub enabled: bool,
    pub ports: Vec<ChassisUSBPort>,
}

pub struct ChassisUSBPort {
    pub connected: bool,
}

/// The closed vocabulary of chassis and FRU states.
pub open spec fn spec_chassis_state_vocab() -> Seq<Seq<char>> {
    seq!["ok"@, "error"@]
}

fn chassis_state_vocabulary() -> (v: Vec<String>)
    ensures
        v.deep_view() == spec_chassis_state_vocab(),
{
    let mut v: Vec<String> = Vec::new();
    v.push("ok".to_owned());
    v.push("error".to_owned());
    proof {
        assert(v.deep_view() =~= spec_chassis_state_vocab());
    }
    v
}

/// How many USB ports of a chassis are connected.
pub open spec fn spec_connected_count(ports: Seq<ChassisUSBPort>) -> int
    decreases ports.len(),
{
    if ports.len() == 0 {
        0
    } else {
        spec_connected_count(ports.drop_last()) + if ports.last().connected {
            1int
        } else {
            0int
        }
    }
}

/// The FRU state samples of one chassis, one one-hot group per FRU under
/// the filer, chassis, FRU and type labels.
pub open spec fn chassis_fru_samples(
    filer: Seq<char>,
    c: Chassis,
    frus: Seq<ChassisFRU>,
) -> Seq<SampleView>
    decreases frus.len(),
{
    if frus.len() == 0 {
        Seq::empty()
    } else {
        chassis_fru_samples(filer, c, frus.drop_last()) + one_hot_samples(
            MetricId::ChassisFruState,
            seq![filer, c.id@, frus.last().id@, frus.last().fru_type@],
            spec_chassis_state_vocab(),
            frus.last().state@,
        )
    }
}

/// The USB samples of one chassis: the supported and enabled flags and
/// the connected / disconnected port counts.
pub open spec fn chassis_usb_samples(base: Seq<Seq<char>>, u: ChassisUSB) -> Seq<SampleView> {
    seq![
        gauge_sv(MetricId::ChassisUsbSupported, base, bool_to_i64(u.supported)),
        gauge_sv(MetricId::ChassisUsbEnabled, base, bool_to_i64(u.enabled)),
        gauge_sv(
            MetricId::ChassisUsbPortConnected,
            base.push("connected"@),
            clip_i64(spec_connected_count(u.ports@)),
        ),
        gauge_sv(
            MetricId::ChassisUsbPortConnected,
            base.push("disconnected"@),
            clip_i64(u.ports@.len() - spec_connected_count(u.ports@)),
        ),
    ]
}

/// All samples of one chassis record.
pub open spec fn chassis_record_samples(filer: Seq<char>, c: Chassis) -> Seq<SampleView> {
    let base = seq![filer, c.id@];
    one_hot_samples(MetricId::ChassisState, base, spec_chassis_state_vocab(), c.state@) + (
    match c.shelves {
        Some(s) => seq![gauge_sv(MetricId::ChassisShelves, base, clip_i64(s@.len() as int))],
        None => Seq::empty(),
    }) + (match c.nodes {
        Some(n) => seq![gauge_sv(MetricId::ChassisNodes, base, clip_i64(n@.len() as int))],
        None => Seq::empty(),
    }) + (match c.frus {
        Some(frus) => chassis_fru_samples(filer, c, frus@),
        None => Seq::empty(),
    }) + (match c.usbs {
        Some(u) => chassis_usb_samples(base, u),
        None => Seq::empty(),
    })
}

/// All samples of a list of chassis records, record by record.
pub open spec fn chassis_samples(filer: Seq<char>, recs: Seq<Chassis>) -> Seq<SampleView>
    decreases recs.len(),
{
    if recs.len() == 0 {
        Seq::empty()
    } else {
        chassis_samples(filer, recs.drop_last()) + chassis_record_samples(filer, recs.last())
    }
}

/// Count the connected USB ports.
fn connected_count(ports: &Vec<ChassisUSBPort>) -> (r: u64)
    ensures
        r == spec_connected_count(ports@),
        r <= ports@.len(),
{
    let mut count: u64 = 0;
    let mut i: usize = 0;
    while i < ports.len()
        invariant
            i <= ports@.len(),
            count == spec_connected_count(ports@.take(i as int)),
            count <= i,
        decreases ports@.len() - i,
    {
        proof {
            assert(ports@.take(i as int + 1).drop_last() =~= ports@.take(i as int));
            assert(ports@.take(i as int + 1).last() == ports@[i as int]);
        }
        if ports[i].connected {
            count = count + 1;
        }
        i = i + 1;
    }
    proof {
        assert(ports@.take(ports@.len() as int) =~= ports@);
    }
    count
}

fn push_chassis_usb(out: &mut Vec<Sample>, base: &Vec<String>, u: &ChassisUSB)
    ensures
        final(out).deep_view() == old(out).deep_view() + chassis_usb_samples(base.deep_view(), *u),
{
    let ghost start = out.deep_view();
    push_bool_gauge(out, MetricId::ChassisUsbSupported, clone_labels(base), u.supported);
    push_bool_gauge(out, MetricId::ChassisUsbEnabled, clone_labels(base), u.enabled);
    let connected = connected_count(&u.ports);
    let total = u.ports.len();
    let disconnected: u64 = total as u64 - connected;
    let mut l1 = clone_labels(base);
    let ghost l1b = l1;
    let tag1 = "connected".to_owned();
    l1.push(tag1);
    proof {
        crate::sample::lemma_deep_view_push(l1b, l1, tag1);
    }
    let connected_i64: i64 = if connected > i64::MAX as u64 {
        i64::MAX
    } else {
        connected as i64
    };
    push_gauge(out, MetricId::ChassisUsbPortConnected, l1, connected_i64);
    let mut l2 = clone_labels(base);
    let ghost l2b = l2;
    let tag2 = "disconnected".to_owned();
    l2.push(tag2);
    proof {
        crate::sample::lemma_deep_view_push(l2b, l2, tag2);
    }
    let disconnected_i64: i64 = if disconnected > i64::MAX as u64 {
        i64::MAX
    } else {
        disconnected as i64
    };
    push_gauge(out, MetricId::ChassisUsbPortConnected, l2, disconnected_i64);
    proof {
        assert(out.deep_view() =~= start + chassis_usb_samples(base.deep_view(), *u));
    }
}

#[verifier::rlimit(60)]
fn push_chassis(
    out: &mut Vec<Sample>,
    filer: &String,
    c: &Chassis,
    state_vocab: &Vec<String>,
)
    requires
        state_vocab.deep_view() == spec_chassis_state_vocab(),
    ensures
        final(out).deep_view() == old(out).deep_view() + chassis_record_samples(filer@, *c),
{
    let ghost start = out.deep_view();
    let base = labels2(filer, &c.id);
    push_one_hot(out, MetricId::ChassisState, &base, state_vocab, &c.state);
    if let Some(s) = &c.shelves {
        push_gauge(out, MetricId::ChassisShelves, clone_labels(&base), len_i64(s.len()));
    }
    if let Some(n) = &c.nodes {
        push_gauge(out, MetricId::ChassisNodes, clone_labels(&base), len_i64(n.len()));
    }
    let ghost s1 = out.deep_view();
    if let Some(frus) = &c.frus {
        let m = frus.len();
        let mut j: usize = 0;
        while j < m
            invariant
                j <= m,
                m == frus@.len(),
                state_vocab.deep_view() == spec_chassis_state_vocab(),
                out.deep_view() == s1 + chassis_fru_samples(filer@, *c, frus@.take(j as int)),
            decreases m - j,
        {
            let fru = &frus[j];
            let fru_base = labels4(filer, &c.id, &fru.id, &fru.fru_type);
            push_one_hot(out, MetricId::ChassisFruState, &fru_base, state_vocab, &fru.state);
            proof {
                assert(frus@.take(j as int + 1).drop_last() =~= frus@.take(j as int));
                assert(frus@.take(j as int + 1).last() == frus@[j as int]);
            }
            j = j + 1;
        }
        proof {
            assert(frus@.take(m as int) =~= frus@);
        }
    }
    if let Some(u) = &c.usbs {
        push_chassis_usb(out, &base, u);
    }
    proof {
        assert(out.deep_view() =~= start + chassis_record_samples(filer@, *c));
    }
}

/// Decode and publish the samples of every chassis record of one storage
/// system.
pub fn update_chassis(filer_name: &String, list: &ChassisList) -> (samples: Vec<Sample>)
    ensures
        samples.deep_view() == chassis_samples(filer_name@, list.records@),
{
    let state_vocab = chassis_state_vocabulary();
    let mut out: Vec<Sample> = Vec::new();
    proof {
        assert(out.deep_view() =~= Seq::<SampleView>::empty());
    }
    let n = list.records.len();
    let mut i: usize = 0;
    while i < n
        invariant
            i <= n,
            n == list.records@.len(),
            state_vocab.deep_view() == spec_chassis_state_vocab(),
            out.deep_view() == chassis_samples(filer_name@, list.records@.take(i as int)),
        decreases n - i,
    {
        push_chassis(&mut out, filer_name, &list.records[i], &state_vocab);
        proof {
            assert(list.records@.take(i as int + 1).drop_last() =~= list.records@.take(i as int));
            assert(list.records@.take(i as int + 1).last() == list.records@[i as int]);
        }
        i = i + 1;
    }
    proof {
        assert(list.records@.take(n as int) =~= list.records@);
    }
    out
}

} // verus!
