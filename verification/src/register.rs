use vstd::prelude::*;

use crate::config::ScrapeTargets;
use crate::constants::{
    TARGET_AGGREGATES, TARGET_CHASSIS, TARGET_CIFS, TARGET_CIFS_CLIENT_IP,
    TARGET_CIFS_MAPPED_USER, TARGET_CIFS_USER, TARGET_ETHERNET, TARGET_FIBRECHANNEL, TARGET_JOBS,
    TARGET_NFS, TARGET_NFS_CLIENT_IP, TARGET_QUOTAS, TARGET_VOLUMES,
};

verus! {

/// An optional flag enables its feature only when it is present and true;
/// an absent or false entry leaves the feature disabled.
pub open spec fn flag_on(o: Option<bool>) -> bool {
    o == Some(true)
}

/// The capability mask that a per-resource enablement block encodes to:
/// one bit per resource, plus independent bits for the high-cardinality
/// sub-dimensions of the session-style resources.
pub open spec fn spec_target_mask(s: ScrapeTargets) -> u64 {
    (if flag_on(s.aggregates) {
        TARGET_AGGREGATES
    } else {
        0
    }) | (if flag_on(s.quotas) {
        TARGET_QUOTAS
    } else {
        0
    }) | (if flag_on(s.volumes) {
        TARGET_VOLUMES
    } else {
        0
    }) | (if flag_on(s.chassis) {
        TARGET_CHASSIS
    } else {
        0
    }) | (if flag_on(s.jobs) {
        TARGET_JOBS
    } else {
        0
    }) | (if flag_on(s.ethernet) {
        TARGET_ETHERNET
    } else {
        0
    }) | (if flag_on(s.fibrechannel) {
        TARGET_FIBRECHANNEL
    } else {
        0
    }) | (match s.cifs {
        Some(c) => TARGET_CIFS | (if flag_on(c.mapped_user) {
            TARGET_CIFS_MAPPED_USER
        } else {
            0
        }) | (if flag_on(c.user) {
            TARGET_CIFS_USER
        } else {
            0
        }) | (if flag_on(c.client_ip) {
            TARGET_CIFS_CLIENT_IP
        } else {
            0
        }),
        None => 0,
    }) | (match s.nfs {
        Some(n) => TARGET_NFS | (if flag_on(n.client_ip) {
            TARGET_NFS_CLIENT_IP
        } else {
            0
        }),
        None => 0,
    })
}

/// Encode an enablement block as a capability mask. Pure; an absent or
/// disabled entry never sets the resource's bit.
pub fn build_target_masks(scrape: &ScrapeTargets) -> (result: u64)
    ensures
        result == spec_target_mask(*scrape),
{
    let aggregates_bit: u64 = match scrape.aggregates {
        Some(true) => TARGET_AGGREGATES,
        _ => 0,
    };
    let quotas_bit: u64 = match scrape.quotas {
        Some(true) => TARGET_QUOTAS,
        _ => 0,
    };
    let volumes_bit: u64 = match scrape.volumes {
        Some(true) => TARGET_VOLUMES,
        _ => 0,
    };
    let chassis_bit: u64 = match scrape.chassis {
        Some(true) => TARGET_CHASSIS,
        _ => 0,
    };
    let jobs_bit: u64 = match scrape.jobs {
        Some(true) => TARGET_JOBS,
        _ => 0,
    };
    let ethernet_bit: u64 = match scrape.ethernet {
        Some(true) => TARGET_ETHERNET,
        _ => 0,
    };
    let fibrechannel_bit: u64 = match scrape.fibrechannel {
        Some(true) => TARGET_FIBRECHANNEL,
        _ => 0,
    };
    let cifs_bits: u64 = match &scrape.cifs {
        Some(c) => TARGET_CIFS | (match c.mapped_user {
            Some(true) => TARGET_CIFS_MAPPED_USER,
            _ => 0,
        }) | (match c.user {
            Some(true) => TARGET_CIFS_USER,
            _ => 0,
        }) | (match c.client_ip {
            Some(true) => TARGET_CIFS_CLIENT_IP,
            _ => 0,
        }),
        None => 0,
    };
    let nfs_bits: u64 = match &scrape.nfs {
        Some(n) => TARGET_NFS | (match n.client_ip {
            Some(true) => TARGET_NFS_CLIENT_IP,
            _ => 0,
        }),
        None => 0,
    };

    aggregates_bit | quotas_bit | volumes_bit | chassis_bit | jobs_bit | ethernet_bit
        | fibrechannel_bit | cifs_bits | nfs_bits
}

/// Whether the CIFS mapped-user sub-dimension is enabled.
pub open spec fn cifs_mapped_user_on(s: ScrapeTargets) -> bool {
    match s.cifs {
        Some(c) => flag_on(c.mapped_user),
        None => false,
    }
}

/// Whether the CIFS user sub-dimension is enabled.
pub open spec fn cifs_user_on(s: ScrapeTargets) -> bool {
    match s.cifs {
        Some(c) => flag_on(c.user),
        None => false,
    }
}

/// Whether the CIFS client-IP sub-dimension is enabled.
pub open spec fn cifs_client_ip_on(s: ScrapeTargets) -> bool {
    match s.cifs {
        Some(c) => flag_on(c.client_ip),
        None => false,
    }
}

/// Whether the NFS client-IP sub-dimension is enabled.
pub open spec fn nfs_client_ip_on(s: ScrapeTargets) -> bool {
    match s.nfs {
        Some(n) => flag_on(n.client_ip),
        None => false,
    }
}

/// Target selection law. Enabling a resource sets exactly its own bit of
/// the capability mask; an omitted or disabled entry never sets it. The
/// high-cardinality sub-dimensions have independent bits, set exactly
/// when their resource block is present and the sub-flag is enabled.
pub proof fn lemma_target_selector(s: ScrapeTargets)
    ensures
        spec_target_mask(s) & TARGET_AGGREGATES != 0 <==> flag_on(s.aggregates),
        spec_target_mask(s) & TARGET_QUOTAS != 0 <==> flag_on(s.quotas),
        spec_target_mask(s) & TARGET_VOLUMES != 0 <==> flag_on(s.volumes),
        spec_target_mask(s) & TARGET_CHASSIS != 0 <==> flag_on(s.chassis),
        spec_target_mask(s) & TARGET_JOBS != 0 <==> flag_on(s.jobs),
        spec_target_mask(s) & TARGET_ETHERNET != 0 <==> flag_on(s.ethernet),
        spec_target_mask(s) & TARGET_FIBRECHANNEL != 0 <==> flag_on(s.fibrechannel),
        spec_target_mask(s) & TARGET_CIFS != 0 <==> s.cifs is Some,
        spec_target_mask(s) & TARGET_CIFS_MAPPED_USER != 0 <==> cifs_mapped_user_on(s),
        spec_target_mask(s) & TARGET_CIFS_USER != 0 <==> cifs_user_on(s),
        spec_target_mask(s) & TARGET_CIFS_CLIENT_IP != 0 <==> cifs_client_ip_on(s),
        spec_target_mask(s) & TARGET_NFS != 0 <==> s.nfs is Some,
        spec_target_mask(s) & TARGET_NFS_CLIENT_IP != 0 <==> nfs_client_ip_on(s),
{
    let m = spec_target_mask(s);
    let a: u64 = if flag_on(s.aggregates) { TARGET_AGGREGATES } else { 0 };
    let q: u64 = if flag_on(s.quotas) { TARGET_QUOTAS } else { 0 };
    let vo: u64 = if flag_on(s.volumes) { TARGET_VOLUMES } else { 0 };
    let ch: u64 = if flag_on(s.chassis) { TARGET_CHASSIS } else { 0 };
    let jo: u64 = if flag_on(s.jobs) { TARGET_JOBS } else { 0 };
    let et: u64 = if flag_on(s.ethernet) { TARGET_ETHERNET } else { 0 };
    let fc: u64 = if flag_on(s.fibrechannel) { TARGET_FIBRECHANNEL } else { 0 };
    let cb: u64 = if s.cifs is Some { TARGET_CIFS } else { 0 };
    let cm: u64 = if cifs_mapped_user_on(s) { TARGET_CIFS_MAPPED_USER } else { 0 };
    let cu: u64 = if cifs_user_on(s) { TARGET_CIFS_USER } else { 0 };
    let cc: u64 = if cifs_client_ip_on(s) { TARGET_CIFS_CLIENT_IP } else { 0 };
    let nb: u64 = if s.nfs is Some { TARGET_NFS } else { 0 };
    let nc: u64 = if nfs_client_ip_on(s) { TARGET_NFS_CLIENT_IP } else { 0 };
    assert(0u64 | 0u64 == 0u64) by (bit_vector);
    assert(cb | cm | cu | cc == match s.cifs {
        Some(c) => TARGET_CIFS | (if flag_on(c.mapped_user) {
            TARGET_CIFS_MAPPED_USER
        } else {
            0u64
        }) | (if flag_on(c.user) {
            TARGET_CIFS_USER
        } else {
            0u64
        }) | (if flag_on(c.client_ip) {
            TARGET_CIFS_CLIENT_IP
        } else {
            0u64
        }),
        None => 0u64,
    });
    assert(nb | nc == match s.nfs {
        Some(n) => TARGET_NFS | (if flag_on(n.client_ip) {
            TARGET_NFS_CLIENT_IP
        } else {
            0u64
        }),
        None => 0u64,
    });
    assert(m == a | q | vo | ch | jo | et | fc | (cb | cm | cu | cc) | (nb | nc));
    assert(((a | q | vo | ch | jo | et | fc | (cb | cm | cu | cc) | (nb | nc)) & 0x1u64 != 0)
        == (a == 0x1u64)
        && ((a | q | vo | ch | jo | et | fc | (cb | cm | cu | cc) | (nb | nc)) & 0x4u64 != 0)
        == (q == 0x4u64)
        && ((a | q | vo | ch | jo | et | fc | (cb | cm | cu | cc) | (nb | nc)) & 0x2u64 != 0)
        == (vo == 0x2u64)
        && ((a | q | vo | ch | jo | et | fc | (cb | cm | cu | cc) | (nb | nc)) & 0x8u64 != 0)
        == (ch == 0x8u64)
        && ((a | q | vo | ch | jo | et | fc | (cb | cm | cu | cc) | (nb | nc)) & 0x10u64 != 0)
        == (jo == 0x10u64)
        && ((a | q | vo | ch | jo | et | fc | (cb | cm | cu | cc) | (nb | nc)) & 0x20u64 != 0)
        == (et == 0x20u64)
        && ((a | q | vo | ch | jo | et | fc | (cb | cm | cu | cc) | (nb | nc)) & 0x40u64 != 0)
        == (fc == 0x40u64)
        && ((a | q | vo | ch | jo | et | fc | (cb | cm | cu | cc) | (nb | nc)) & 0x80u64 != 0)
        == (cb == 0x80u64)
        && ((a | q | vo | ch | jo | et | fc | (cb | cm | cu | cc) | (nb | nc)) & 0x100u64 != 0)
        == (cm == 0x100u64)
        && ((a | q | vo | ch | jo | et | fc | (cb | cm | cu | cc) | (nb | nc)) & 0x200u64 != 0)
        == (cu == 0x200u64)
        && ((a | q | vo | ch | jo | et | fc | (cb | cm | cu | cc) | (nb | nc)) & 0x400u64 != 0)
        == (cc == 0x400u64)
        && ((a | q | vo | ch | jo | et | fc | (cb | cm | cu | cc) | (nb | nc)) & 0x800u64 != 0)
        == (nb == 0x800u64)
        && ((a | q | vo | ch | jo | et | fc | (cb | cm | cu | cc) | (nb | nc)) & 0x1000u64 != 0)
        == (nc == 0x1000u64)) by (bit_vector)
        requires
            a == 0 || a == 0x1u64,
            q == 0 || q == 0x4u64,
            vo == 0 || vo == 0x2u64,
            ch == 0 || ch == 0x8u64,
            jo == 0 || jo == 0x10u64,
            et == 0 || et == 0x20u64,
            fc == 0 || fc == 0x40u64,
            cb == 0 || cb == 0x80u64,
            cm == 0 || cm == 0x100u64,
            cu == 0 || cu == 0x200u64,
            cc == 0 || cc == 0x400u64,
            nb == 0 || nb == 0x800u64,
            nc == 0 || nc == 0x1000u64,
    ;
}

} // verus!
