use vstd::prelude::*;

use crate::accum::{acc_empty, acc_samples, seeded, spec_bump, AccView, GroupAccumulator};
use crate::arith::{clip_u64, sat_add_u64};
use crate::counter::{counter_step, push_counter_series, CounterKeyView, CounterState};
use crate::sample::{labels1, MetricId, Sample, SampleView};

verus! {

pub struct NfsList {
    pub records: Vec<Nfs>,
}

/// One connected NFS client as reported by the device. Depending on the
/// connection's state and protocol the volume entry can be missing.
pub struct Nfs {
    pub protocol: String,
    pub volume: Option<Volume>,
    pub local_request_count: u64,
    pub remote_request_count: u64,
    pub client_ip: String,
}

pub struct Volume {
    pub name: String,
}

/// The closed vocabulary of NFS protocol versions.
pub open spec fn spec_nfs_protocol_vocab() -> Seq<Seq<char>> {
    seq!["nfs"@, "nfs3"@, "nfs4"@, "nfs4.1"@]
}

fn nfs_protocol_vocabulary() -> (v: Vec<String>)
    ensures
        v.deep_view() == spec_nfs_protocol_vocab(),
{
    let mut v: Vec<String> = Vec::new();
    v.push("nfs".to_owned());
    v.push("nfs3".to_owned());
    v.push("nfs4".to_owned());
    v.push("nfs4.1".to_owned());
    proof {
        assert(v.deep_view() =~= spec_nfs_protocol_vocab());
    }
    v
}

/// Everything one scrape cycle accumulates over the client records before
/// emission.
pub struct NfsTotals {
    pub protocols: AccView,
    pub volumes: AccView,
    pub clients: AccView,
    pub local_requests: u64,
    pub remote_requests: u64,
}

pub open spec fn nfs_totals_init() -> NfsTotals {
    NfsTotals {
        protocols: seeded(spec_nfs_protocol_vocab()),
        volumes: acc_empty(),
        clients: acc_empty(),
        local_requests: 0,
        remote_requests: 0,
    }
}

/// Folding one client record into the totals. The client-IP dimension is
/// accumulated only when its cardinality sub-flag is on.
pub open spec fn nfs_step(t: NfsTotals, r: Nfs, client_ip: bool) -> NfsTotals {
    NfsTotals {
        protocols: spec_bump(t.protocols, r.protocol@),
        volumes: match r.volume {
            Some(v) => spec_bump(t.volumes, v.name@),
            None => t.volumes,
        },
        clients: if client_ip {
            spec_bump(t.clients, r.client_ip@)
        } else {
            t.clients
        },
        local_requests: clip_u64(t.local_requests + r.local_request_count),
        remote_requests: clip_u64(t.remote_requests + r.remote_request_count),
    }
}

/// The totals after folding a list of client records in order.
pub open spec fn nfs_scan(recs: Seq<Nfs>, client_ip: bool) -> NfsTotals
    decreases recs.len(),
{
    if recs.len() == 0 {
        nfs_totals_init()
    } else {
        nfs_step(nfs_scan(recs.drop_last(), client_ip), recs.last(), client_ip)
    }
}

/// All NFS samples of one storage system, with the counter map the two
/// reconciled request counters leave behind. The summed request totals
/// are cumulative raw values and go through counter reconciliation.
pub open spec fn nfs_samples(
    filer: Seq<char>,
    recs: Seq<Nfs>,
    client_ip: bool,
    m0: Map<CounterKeyView, (u64, u64)>,
) -> (Map<CounterKeyView, (u64, u64)>, Seq<SampleView>) {
    let t = nfs_scan(recs, client_ip);
    let base = seq![filer];
    let (m1, s_local) = counter_step(m0, MetricId::NfsLocalRequests, base, t.local_requests);
    let (m2, s_remote) = counter_step(m1, MetricId::NfsRemoteRequests, base, t.remote_requests);
    (
        m2,
        acc_samples(MetricId::NfsProtocols, base, t.protocols) + acc_samples(
            MetricId::NfsVolumes,
            base,
            t.volumes,
        ) + seq![s_local, s_remote] + (if client_ip {
            acc_samples(MetricId::NfsClients, base, t.clients)
        } else {
            Seq::empty()
        }),
    )
}

/// Decode and publish the NFS client samples of one storage system,
/// reconciling the summed request counters.
pub fn update_nfs(
    filer_name: &String,
    list: &NfsList,
    client_ip: bool,
    counters: &mut CounterState,
) -> (samples: Vec<Sample>)
    requires
        old(counters).wf(),
    ensures
        final(counters).wf(),
        crate::counter::spec_counters(*final(counters)) == nfs_samples(
            filer_name@,
            list.records@,
            client_ip,
            crate::counter::spec_counters(*old(counters)),
        ).0,
        samples.deep_view() == nfs_samples(
            filer_name@,
            list.records@,
            client_ip,
            crate::counter::spec_counters(*old(counters)),
        ).1,
{
    let protocol_vocab = nfs_protocol_vocabulary();
    let mut protocols = GroupAccumulator::from_vocab(&protocol_vocab);
    let mut volumes = GroupAccumulator::new();
    let mut clients = GroupAccumulator::new();
    let mut local_requests: u64 = 0;
    let mut remote_requests: u64 = 0;
    let n = list.records.len();
    let mut i: usize = 0;
    while i < n
        invariant
            i <= n,
            n == list.records@.len(),
            protocols.wf(),
            volumes.wf(),
            clients.wf(),
            ({
                let t = nfs_scan(list.records@.take(i as int), client_ip);
                &&& protocols@ == t.protocols
                &&& volumes@ == t.volumes
                &&& clients@ == t.clients
                &&& local_requests == t.local_requests
                &&& remote_requests == t.remote_requests
            }),
        decreases n - i,
    {
        let r = &list.records[i];
        protocols.bump(&r.protocol);
        if let Some(v) = &r.volume {
            volumes.bump(&v.name);
        }
        if client_ip {
            clients.bump(&r.client_ip);
        }
        local_requests = sat_add_u64(local_requests, r.local_request_count);
        remote_requests = sat_add_u64(remote_requests, r.remote_request_count);
        proof {
            assert(list.records@.take(i as int + 1).drop_last() =~= list.records@.take(i as int));
            assert(list.records@.take(i as int + 1).last() == list.records@[i as int]);
        }
        i = i + 1;
    }
    proof {
        assert(list.records@.take(n as int) =~= list.records@);
    }

    let base = labels1(filer_name);
    let mut out: Vec<Sample> = Vec::new();
    proof {
        assert(out.deep_view() =~= Seq::<SampleView>::empty());
    }
    protocols.emit(&mut out, MetricId::NfsProtocols, &base);
    volumes.emit(&mut out, MetricId::NfsVolumes, &base);
    push_counter_series(&mut out, counters, MetricId::NfsLocalRequests, &base, local_requests);
    push_counter_series(&mut out, counters, MetricId::NfsRemoteRequests, &base, remote_requests);
    if client_ip {
        clients.emit(&mut out, MetricId::NfsClients, &base);
    }
    proof {
        assert(out.deep_view() =~= nfs_samples(
            filer_name@,
            list.records@,
            client_ip,
            crate::counter::spec_counters(*old(counters)),
        ).1);
    }
    out
}

} // verus!
