use vstd::prelude::*;

use crate::accum::{acc_empty, acc_samples, seeded, spec_bump, spec_bump_seq, AccView, GroupAccumulator};
use crate::arith::{clip_i64, sat_add_i64};
use crate::sample::{gauge_sv, labels1, labels2, push_gauge, MetricId, Sample, SampleView};

verus! {

pub struct CifsList {
    pub records: Vec<Cifs>,
}

/// One SMB session as reported by the device.
pub struct Cifs {
    pub protocol: String,
    pub smb_encryption: String,
    pub continuous_availability: String,
    pub open_shares: i64,
    pub authentication: String,
    pub volumes: Vec<Volume>,
    pub smb_signing: bool,
    pub connection_count: i64,
    pub user: String,
    pub mapped_unix_user: String,
    pub open_files: i64,
    pub client_ip: String,
    pub open_other: i64,
    pub large_mtu: bool,
}

pub struct Volume {
    pub name: String,
}

/// The closed vocabulary of SMB protocol versions.
pub open spec fn spec_cifs_protocol_vocab() -> Seq<Seq<char>> {
    seq!["smb1"@, "smb2"@, "smb2_1"@, "smb3"@, "smb3_1"@]
}

fn cifs_protocol_vocabulary() -> (v: Vec<String>)
    ensures
        v.deep_view() == spec_cifs_protocol_vocab(),
{
    let mut v: Vec<String> = Vec::new();
    v.push("smb1".to_owned());
    v.push("smb2".to_owned());
    v.push("smb2_1".to_owned());
    v.push("smb3".to_owned());
    v.push("smb3_1".to_owned());
    proof {
        assert(v.deep_view() =~= spec_cifs_protocol_vocab());
    }
    v
}

/// The closed vocabulary of SMB encryption states.
pub open spec fn spec_cifs_encryption_vocab() -> Seq<Seq<char>> {
    seq!["unencrypted"@, "encrypted"@, "partially_encrypted"@]
}

fn cifs_encryption_vocabulary() -> (v: Vec<String>)
    ensures
        v.deep_view() == spec_cifs_encryption_vocab(),
{
    let mut v: Vec<String> = Vec::new();
    v.push("unencrypted".to_owned());
    v.push("encrypted".to_owned());
    v.push("partially_encrypted".to_owned());
    proof {
        assert(v.deep_view() =~= spec_cifs_encryption_vocab());
    }
    v
}

/// The closed vocabulary of continuous-availability levels.
pub open spec fn spec_cifs_availability_vocab() -> Seq<Seq<char>> {
    seq!["available"@, "unavailable"@, "partial"@]
}

fn cifs_availability_vocabulary() -> (v: Vec<String>)
    ensures
        v.deep_view() == spec_cifs_availability_vocab(),
{
    let mut v: Vec<String> = Vec::new();
    v.push("available".to_owned());
    v.push("unavailable".to_owned());
    v.push("partial".to_owned());
    proof {
        assert(v.deep_view() =~= spec_cifs_availability_vocab());
    }
    v
}

/// The closed vocabulary of SMB authentication types.
pub open spec fn spec_cifs_authentication_vocab() -> Seq<Seq<char>> {
    seq!["none"@, "ntlmv1"@, "ntlmv2"@, "kerberos"@, "anonymous"@]
}

fn cifs_authentication_vocabulary() -> (v: Vec<String>)
    ensures
        v.deep_view() == spec_cifs_authentication_vocab(),
{
    let mut v: Vec<String> = Vec::new();
    v.push("none".to_owned());
    v.push("ntlmv1".to_owned());
    v.push("ntlmv2".to_owned());
    v.push("kerberos".to_owned());
    v.push("anonymous".to_owned());
    proof {
        assert(v.deep_view() =~= spec_cifs_authentication_vocab());
    }
    v
}

/// The names of the volumes one session touches.
pub open spec fn spec_volume_names(vs: Seq<Volume>) -> Seq<Seq<char>> {
    Seq::new(vs.len(), |i: int| vs[i].name@)
}

/// Everything one scrape cycle accumulates over the session records
/// before emission.
pub struct CifsTotals {
    pub protocols: AccView,
    pub encryptions: AccView,
    pub availabilities: AccView,
    pub authentications: AccView,
    pub volumes: AccView,
    pub users: AccView,
    pub mapped_users: AccView,
    pub clients: AccView,
    pub open_shares: i64,
    pub open_files: i64,
    pub open_other: i64,
    pub signing_on: i64,
    pub signing_off: i64,
    pub connections: i64,
    pub mtu_on: i64,
    pub mtu_off: i64,
}

/// The accumulators before any record is folded in: the closed
/// vocabularies seeded at zero, the open-ended dimensions empty, every
/// scalar zero.
pub open spec fn cifs_totals_init() -> CifsTotals {
    CifsTotals {
        protocols: seeded(spec_cifs_protocol_vocab()),
        encryptions: seeded(spec_cifs_encryption_vocab()),
        availabilities: seeded(spec_cifs_availability_vocab()),
        authentications: seeded(spec_cifs_authentication_vocab()),
        volumes: acc_empty(),
        users: acc_empty(),
        mapped_users: acc_empty(),
        clients: acc_empty(),
        open_shares: 0,
        open_files: 0,
        open_other: 0,
        signing_on: 0,
        signing_off: 0,
        connections: 0,
        mtu_on: 0,
        mtu_off: 0,
    }
}

/// Folding one session record into the totals. An open-ended dimension is
/// accumulated only when its cardinality sub-flag is on; when the flag is
/// off the record leaves that accumulator untouched.
pub open spec fn cifs_step(
    t: CifsTotals,
    r: Cifs,
    client_ip: bool,
    mapped_user: bool,
    user: bool,
) -> CifsTotals {
    CifsTotals {
        protocols: spec_bump(t.protocols, r.protocol@),
        encryptions: spec_bump(t.encryptions, r.smb_encryption@),
        availabilities: spec_bump(t.availabilities, r.continuous_availability@),
        authentications: spec_bump(t.authentications, r.authentication@),
        volumes: spec_bump_seq(t.volumes, spec_volume_names(r.volumes@)),
        users: if user {
            spec_bump(t.users, r.user@)
        } else {
            t.users
        },
        mapped_users: if mapped_user {
            spec_bump(t.mapped_users, r.mapped_unix_user@)
        } else {
            t.mapped_users
        },
        clients: if client_ip {
            spec_bump(t.clients, r.client_ip@)
        } else {
            t.clients
        },
        open_shares: clip_i64(t.open_shares + r.open_shares),
        open_files: clip_i64(t.open_files + r.open_files),
        open_other: clip_i64(t.open_other + r.open_other),
        signing_on: if r.smb_signing {
            clip_i64(t.signing_on + 1)
        } else {
            t.signing_on
        },
        signing_off: if !r.smb_signing {
            clip_i64(t.signing_off + 1)
        } else {
            t.signing_off
        },
        connections: clip_i64(t.connections + r.connection_count),
        mtu_on: if r.large_mtu {
            clip_i64(t.mtu_on + 1)
        } else {
            t.mtu_on
        },
        mtu_off: if !r.large_mtu {
            clip_i64(t.mtu_off + 1)
        } else {
            t.mtu_off
        },
    }
}

/// The totals after folding a list of session records in order.
pub open spec fn cifs_scan(
    recs: Seq<Cifs>,
    client_ip: bool,
    mapped_user: bool,
    user: bool,
) -> CifsTotals
    decreases recs.len(),
{
    if recs.len() == 0 {
        cifs_totals_init()
    } else {
        cifs_step(
            cifs_scan(recs.drop_last(), client_ip, mapped_user, user),
            recs.last(),
            client_ip,
            mapped_user,
            user,
        )
    }
}

/// All CIFS samples of one storage system. Closed vocabularies emit every
/// member every cycle (absent members stay 0); open-ended dimensions emit
/// only observed values and only when their sub-flag is on.
pub open spec fn cifs_samples(
    filer: Seq<char>,
    recs: Seq<Cifs>,
    client_ip: bool,
    mapped_user: bool,
    user: bool,
) -> Seq<SampleView> {
    let t = cifs_scan(recs, client_ip, mapped_user, user);
    let base = seq![filer];
    acc_samples(MetricId::CifsProtocols, base, t.protocols) + acc_samples(
        MetricId::CifsSmbEncryption,
        base,
        t.encryptions,
    ) + acc_samples(MetricId::CifsContinuousAvailability, base, t.availabilities) + seq![
        gauge_sv(MetricId::CifsOpenFiles, base, t.open_files),
        gauge_sv(MetricId::CifsOpenShares, base, t.open_shares),
        gauge_sv(MetricId::CifsOpenOther, base, t.open_other),
    ] + acc_samples(MetricId::CifsAuthentication, base, t.authentications) + seq![
        gauge_sv(MetricId::CifsSmbSigning, seq![filer, "on"@], t.signing_on),
        gauge_sv(MetricId::CifsSmbSigning, seq![filer, "off"@], t.signing_off),
    ] + (if user {
        acc_samples(MetricId::CifsUser, base, t.users)
    } else {
        Seq::empty()
    }) + (if mapped_user {
        acc_samples(MetricId::CifsMappedUnixUser, base, t.mapped_users)
    } else {
        Seq::empty()
    }) + (if client_ip {
        acc_samples(MetricId::CifsClients, base, t.clients)
    } else {
        Seq::empty()
    }) + acc_samples(MetricId::CifsVolumes, base, t.volumes) + seq![
        gauge_sv(MetricId::CifsLargeMtu, seq![filer, "on"@], t.mtu_on),
        gauge_sv(MetricId::CifsLargeMtu, seq![filer, "off"@], t.mtu_off),
        gauge_sv(MetricId::CifsConnections, base, t.connections),
    ]
}

/// Collect the names of the volumes one session touches.
fn volume_names(vs: &Vec<Volume>) -> (names: Vec<String>)
    ensures
        names.deep_view() == spec_volume_names(vs@),
{
    let mut names: Vec<String> = Vec::new();
    let mut i: usize = 0;
    while i < vs.len()
        invariant
            i <= vs@.len(),
            names.deep_view() == spec_volume_names(vs@.take(i as int)),
        decreases vs@.len() - i,
    {
        let ghost prev = names;
        let name = vs[i].name.clone();
        names.push(name);
        proof {
            crate::sample::lemma_deep_view_push(prev, names, name);
            assert(names.deep_view() =~= spec_volume_names(vs@.take(i as int + 1)));
        }
        i = i + 1;
    }
    proof {
        assert(vs@.take(vs@.len() as int) =~= vs@);
        assert(names.deep_view() =~= spec_volume_names(vs@));
    }
    names
}

/// Decode and publish the CIFS session samples of one storage system.
/// Disabled sub-flags skip accumulation of their dimension entirely.
#[verifier::rlimit(100)]
pub fn update_cifs(
    filer_name: &String,
    list: &CifsList,
    client_ip: bool,
    mapped_user: bool,
    user: bool,
) -> (samples: Vec<Sample>)
    ensures
        samples.deep_view() == cifs_samples(
            filer_name@,
            list.records@,
            client_ip,
            mapped_user,
            user,
        ),
{
    let protocol_vocab = cifs_protocol_vocabulary();
    let encryption_vocab = cifs_encryption_vocabulary();
    let availability_vocab = cifs_availability_vocabulary();
    let authentication_vocab = cifs_authentication_vocabulary();
    let mut protocols = GroupAccumulator::from_vocab(&protocol_vocab);
    let mut encryptions = GroupAccumulator::from_vocab(&encryption_vocab);
    let mut availabilities = GroupAccumulator::from_vocab(&availability_vocab);
    let mut authentications = GroupAccumulator::from_vocab(&authentication_vocab);
    let mut volumes = GroupAccumulator::new();
    let mut users = GroupAccumulator::new();
    let mut mapped_users = GroupAccumulator::new();
    let mut clients = GroupAccumulator::new();
    let mut open_shares: i64 = 0;
    let mut open_files: i64 = 0;
    let mut open_other: i64 = 0;
    let mut signing_on: i64 = 0;
    let mut signing_off: i64 = 0;
    let mut connections: i64 = 0;
    let mut mtu_on: i64 = 0;
    let mut mtu_off: i64 = 0;
    let n = list.records.len();
    let mut i: usize = 0;
    while i < n
        invariant
            i <= n,
            n == list.records@.len(),
            protocols.wf(),
            encryptions.wf(),
            availabilities.wf(),
            authentications.wf(),
            volumes.wf(),
            users.wf(),
            mapped_users.wf(),
            clients.wf(),
            ({
                let t = cifs_scan(list.records@.take(i as int), client_ip, mapped_user, user);
                &&& protocols@ == t.protocols
                &&& encryptions@ == t.encryptions
                &&& availabilities@ == t.availabilities
                &&& authentications@ == t.authentications
                &&& volumes@ == t.volumes
                &&& users@ == t.users
                &&& mapped_users@ == t.mapped_users
                &&& clients@ == t.clients
                &&& open_shares == t.open_shares
                &&& open_files == t.open_files
                &&& open_other == t.open_other
                &&& signing_on == t.signing_on
                &&& signing_off == t.signing_off
                &&& connections == t.connections
                &&& mtu_on == t.mtu_on
                &&& mtu_off == t.mtu_off
            }),
        decreases n - i,
    {
        let r = &list.records[i];
        protocols.bump(&r.protocol);
        encryptions.bump(&r.smb_encryption);
        availabilities.bump(&r.continuous_availability);
        authentications.bump(&r.authentication);
        let names = volume_names(&r.volumes);
        volumes.bump_all(&names);
        if user {
            users.bump(&r.user);
        }
        if mapped_user {
            mapped_users.bump(&r.mapped_unix_user);
        }
        if client_ip {
            clients.bump(&r.client_ip);
        }
        open_shares = sat_add_i64(open_shares, r.open_shares);
        open_files = sat_add_i64(open_files, r.open_files);
        open_other = sat_add_i64(open_other, r.open_other);
        if r.smb_signing {
            signing_on = sat_add_i64(signing_on, 1);
        } else {
            signing_off = sat_add_i64(signing_off, 1);
        }
        connections = sat_add_i64(connections, r.connection_count);
        if r.large_mtu {
            mtu_on = sat_add_i64(mtu_on, 1);
        } else {
            mtu_off = sat_add_i64(mtu_off, 1);
        }
        proof {
            assert(list.records@.take(i as int + 1).drop_last() =~= list.records@.take(i as int));
            assert(list.records@.take(i as int + 1).last() == list.records@[i as int]);
        }
        i = i + 1;
    }
    proof {
        assert(list.records@.take(n as int) =~= list.records@);
    }

    let base = labels1(filer_name);
    let mut out: Vec<Sample> = Vec::new();
    proof {
        assert(out.deep_view() =~= Seq::<SampleView>::empty());
    }
    protocols.emit(&mut out, MetricId::CifsProtocols, &base);
    encryptions.emit(&mut out, MetricId::CifsSmbEncryption, &base);
    availabilities.emit(&mut out, MetricId::CifsContinuousAvailability, &base);
    push_gauge(&mut out, MetricId::CifsOpenFiles, crate::sample::clone_labels(&base), open_files);
    push_gauge(&mut out, MetricId::CifsOpenShares, crate::sample::clone_labels(&base), open_shares);
    push_gauge(&mut out, MetricId::CifsOpenOther, crate::sample::clone_labels(&base), open_other);
    authentications.emit(&mut out, MetricId::CifsAuthentication, &base);
    push_gauge(&mut out, MetricId::CifsSmbSigning, labels2(filer_name, &"on".to_owned()), signing_on);
    push_gauge(
        &mut out,
        MetricId::CifsSmbSigning,
        labels2(filer_name, &"off".to_owned()),
        signing_off,
    );
    if user {
        users.emit(&mut out, MetricId::CifsUser, &base);
    }
    if mapped_user {
        mapped_users.emit(&mut out, MetricId::CifsMappedUnixUser, &base);
    }
    if client_ip {
        clients.emit(&mut out, MetricId::CifsClients, &base);
    }
    volumes.emit(&mut out, MetricId::CifsVolumes, &base);
    push_gauge(&mut out, MetricId::CifsLargeMtu, labels2(filer_name, &"on".to_owned()), mtu_on);
    push_gauge(&mut out, MetricId::CifsLargeMtu, labels2(filer_name, &"off".to_owned()), mtu_off);
    push_gauge(&mut out, MetricId::CifsConnections, crate::sample::clone_labels(&base), connections);
    proof {
        assert(out.deep_view() =~= cifs_samples(
            filer_name@,
            list.records@,
            client_ip,
            mapped_user,
            user,
        ));
    }
    out
}

/// Cardinality gating law. With the client-IP sub-flag off, no CIFS
/// sample carries the client dimension, however many distinct client
/// addresses the records held; the same holds for the user and mapped
/// user dimensions under their flags.
pub proof fn lemma_cardinality_gating(
    filer: Seq<char>,
    recs: Seq<Cifs>,
    client_ip: bool,
    mapped_user: bool,
    user: bool,
)
    ensures
        !client_ip ==> forall|i: int|
            0 <= i < cifs_samples(filer, recs, client_ip, mapped_user, user).len()
                ==> #[trigger] cifs_samples(filer, recs, client_ip, mapped_user, user)[i].id
                != MetricId::CifsClients,
        !user ==> forall|i: int|
            0 <= i < cifs_samples(filer, recs, client_ip, mapped_user, user).len()
                ==> #[trigger] cifs_samples(filer, recs, client_ip, mapped_user, user)[i].id
                != MetricId::CifsUser,
        !mapped_user ==> forall|i: int|
            0 <= i < cifs_samples(filer, recs, client_ip, mapped_user, user).len()
                ==> #[trigger] cifs_samples(filer, recs, client_ip, mapped_user, user)[i].id
                != MetricId::CifsMappedUnixUser,
{
}

} // verus!
