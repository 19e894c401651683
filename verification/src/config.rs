use vstd::prelude::*;

use crate::decode::string_eq;

verus! {

/// Top-level configuration: the list of storage systems to poll, plus the
/// default set of enabled resources and its encoded capability mask.
pub struct Configuration {
    pub filer: Vec<NetAppConfiguration>,
    pub register: ScrapeTargets,
    pub register_mask: u64,
}

/// Connection settings for one storage system. Built once at load time and
/// never mutated afterwards.
pub struct NetAppConfiguration {
    pub address: String,
    pub ca_cert: Option<String>,
    pub insecure_ssl: Option<bool>,
    pub name: String,
    pub timeout: Option<u64>,
    pub user: String,
    pub password: String,
    pub targets: Option<ScrapeTargets>,
    pub targets_mask: u64,
}

/// Per-resource enablement block. An absent entry means the resource is
/// disabled; for session-style resources the entry carries independent
/// sub-flags for high-cardinality label dimensions.
pub struct ScrapeTargets {
    pub aggregates: Option<bool>,
    pub chassis: Option<bool>,
    pub ethernet: Option<bool>,
    pub fibrechannel: Option<bool>,
    pub jobs: Option<bool>,
    pub quotas: Option<bool>,
    pub volumes: Option<bool>,
    pub cifs: Option<CifsTargets>,
    pub nfs: Option<NfsTargets>,
}

/// Sub-flags for the CIFS session resource: each open-ended label dimension
/// is gated separately from the resource itself.
pub struct CifsTargets {
    pub mapped_user: Option<bool>,
    pub user: Option<bool>,
    pub client_ip: Option<bool>,
}

/// Sub-flags for the NFS client resource.
pub struct NfsTargets {
    pub client_ip: Option<bool>,
}

/// Why a configuration was rejected at load time.
#[derive(Clone, Copy, Debug, PartialEq, Eq, Structural)]
pub enum ConfigError {
    AddressNotConfigured,
    NameNotConfigured,
    IllegalTimeout,
}

impl ConfigError {
    /// A short description of the problem.
    pub fn message(&self) -> (r: String)
        ensures
            *self == ConfigError::AddressNotConfigured ==> r@ == "address is not configured"@,
            *self == ConfigError::NameNotConfigured ==> r@ == "name is not configured"@,
            *self == ConfigError::IllegalTimeout ==> r@ == "illegal value for timeout: 0"@,
    {
        match self {
            ConfigError::AddressNotConfigured => "address is not configured".to_owned(),
            ConfigError::NameNotConfigured => "name is not configured".to_owned(),
            ConfigError::IllegalTimeout => "illegal value for timeout: 0".to_owned(),
        }
    }
}

/// The first problem with one target's settings, if any: the address and
/// name must be present and a configured timeout must not be zero.
pub open spec fn spec_filer_issue(f: NetAppConfiguration) -> Option<ConfigError> {
    if f.address@ == ""@ {
        Some(ConfigError::AddressNotConfigured)
    } else if f.name@ == ""@ {
        Some(ConfigError::NameNotConfigured)
    } else if f.timeout == Some(0u64) {
        Some(ConfigError::IllegalTimeout)
    } else {
        None
    }
}

/// The first problem in a list of targets, if any.
pub open spec fn spec_config_issue(filers: Seq<NetAppConfiguration>) -> Option<ConfigError>
    decreases filers.len(),
{
    if filers.len() == 0 {
        None
    } else {
        match spec_filer_issue(filers.first()) {
            Some(e) => Some(e),
            None => spec_config_issue(filers.drop_first()),
        }
    }
}

/// Check a loaded configuration: every target needs an address and a
/// name, and a configured timeout must not be zero. Returns the first
/// problem found, walking the targets in order.
pub fn validate_configuration(cfg: &Configuration) -> (r: Result<(), ConfigError>)
    ensures
        r == match spec_config_issue(cfg.filer@) {
            Some(e) => Result::<(), ConfigError>::Err(e),
            None => Result::<(), ConfigError>::Ok(()),
        },
{
    let n = cfg.filer.len();
    let mut i: usize = 0;
    proof {
        assert(cfg.filer@.skip(0) =~= cfg.filer@);
    }
    while i < n
        invariant
            i <= n,
            n == cfg.filer@.len(),
            spec_config_issue(cfg.filer@) == spec_config_issue(cfg.filer@.skip(i as int)),
            forall|j: int| 0 <= j < i ==> spec_filer_issue(cfg.filer@[j]) is None,
        decreases n - i,
    {
        let f = &cfg.filer[i];
        proof {
            assert(cfg.filer@.skip(i as int).first() == cfg.filer@[i as int]);
            assert(cfg.filer@.skip(i as int).drop_first() =~= cfg.filer@.skip(i as int + 1));
        }
        let empty = "".to_owned();
        if string_eq(&f.address, &empty) {
            return Err(ConfigError::AddressNotConfigured);
        }
        if string_eq(&f.name, &empty) {
            return Err(ConfigError::NameNotConfigured);
        }
        if let Some(t) = f.timeout {
            if t == 0 {
                return Err(ConfigError::IllegalTimeout);
            }
        }
        i = i + 1;
    }
    proof {
        assert(cfg.filer@.skip(n as int) =~= Seq::<NetAppConfiguration>::empty());
    }
    Ok(())
}

} // verus!
