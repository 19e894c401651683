use vstd::prelude::*;
use vstd::string::StringExecFns;

use crate::exporter::ResourceKind;

verus! {

pub const DEFAULT_INSECURE_SSL: bool = false;
pub const DEFAULT_TIMEOUT: u64 = 60;

pub const TARGET_AGGREGATES: u64 = 0x1;
pub const TARGET_VOLUMES: u64 = 0x2;
pub const TARGET_QUOTAS: u64 = 0x4;
pub const TARGET_CHASSIS: u64 = 0x8;
pub const TARGET_JOBS: u64 = 0x10;
pub const TARGET_ETHERNET: u64 = 0x20;
pub const TARGET_FIBRECHANNEL: u64 = 0x40;
pub const TARGET_CIFS: u64 = 0x80;
pub const TARGET_CIFS_MAPPED_USER: u64 = 0x100;
pub const TARGET_CIFS_USER: u64 = 0x200;
pub const TARGET_CIFS_CLIENT_IP: u64 = 0x400;
pub const TARGET_NFS: u64 = 0x800;
pub const TARGET_NFS_CLIENT_IP: u64 = 0x1000;

pub const NAME: &'static str = "prometheus-netapp-exporter";

pub const VERSION: &'static str = "1.0.1";

pub const DEFAULT_PROMETHEUS_ADDRESS: &'static str = "localhost:9988";

pub const METRICS_PATH: &'static str = "metrics";

pub const HTTP_CLIENT_TIMEOUT: u64 = 15;

/// The user agent the poller identifies itself with: name, version and
/// the project address.
pub open spec fn spec_default_user_agent() -> Seq<char> {
    "prometheus-netapp-exporter/1.0.1 (https://ypbind.de/cgit/prometheus-netapp-exporter/)"@
}

pub fn generate_default_user_agent() -> (r: String)
    ensures
        r@ == spec_default_user_agent(),
{
    "prometheus-netapp-exporter/1.0.1 (https://ypbind.de/cgit/prometheus-netapp-exporter/)".to_owned()
}

/// The management API path of one resource family.
pub open spec fn spec_resource_path(kind: ResourceKind) -> Seq<char> {
    match kind {
        ResourceKind::Aggregates => "/api/storage/aggregates"@,
        ResourceKind::Volumes => "/api/storage/volumes"@,
        ResourceKind::Quotas => "/api/storage/quota/reports"@,
        ResourceKind::Chassis => "/api/cluster/chassis"@,
        ResourceKind::Jobs => "/api/cluster/jobs"@,
        ResourceKind::Ethernet => "/api/network/ethernet/ports"@,
        ResourceKind::FibreChannel => "/api/network/fc/ports"@,
        ResourceKind::Cifs => "/api/protocols/cifs/sessions"@,
        ResourceKind::Nfs => "/api/protocols/nfs/connected-clients"@,
    }
}

pub fn resource_path(kind: ResourceKind) -> (r: String)
    ensures
        r@ == spec_resource_path(kind),
{
    match kind {
        ResourceKind::Aggregates => "/api/storage/aggregates".to_owned(),
        ResourceKind::Volumes => "/api/storage/volumes".to_owned(),
        ResourceKind::Quotas => "/api/storage/quota/reports".to_owned(),
        ResourceKind::Chassis => "/api/cluster/chassis".to_owned(),
        ResourceKind::Jobs => "/api/cluster/jobs".to_owned(),
        ResourceKind::Ethernet => "/api/network/ethernet/ports".to_owned(),
        ResourceKind::FibreChannel => "/api/network/fc/ports".to_owned(),
        ResourceKind::Cifs => "/api/protocols/cifs/sessions".to_owned(),
        ResourceKind::Nfs => "/api/protocols/nfs/connected-clients".to_owned(),
    }
}

/// The full query for one resource of one target, asking for every field.
pub open spec fn spec_resource_url(address: Seq<char>, kind: ResourceKind) -> Seq<char> {
    "https://"@ + address + spec_resource_path(kind) + "?fields=**"@
}

pub fn resource_url(address: &String, kind: ResourceKind) -> (r: String)
    ensures
        r@ == spec_resource_url(address@, kind),
{
    let mut url = "https://".to_owned();
    url.append(address.as_str());
    let path = resource_path(kind);
    url.append(path.as_str());
    url.append("?fields=**");
    url
}

} // verus!
