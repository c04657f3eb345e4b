//! The daemon's global state: built once from the validated configuration,
//! it owns the descriptors, the static network identity, the watched-index
//! tracker and the derived file paths, and answers the role queries the rest
//! of the daemon asks.

use vstd::prelude::*;
use vstd::string::*;

use crate::identity::{privkey_wf, noise_public_key_of, NoisePrivKey, NoisePubKey};
use crate::order::{canonical_keys, key_views};
use crate::scripts::{
    build_descriptors, check_emergency_address, cpfp_buildable, cpfp_desc_of, deposit_addr_of,
    deposit_buildable, deposit_desc_derivable, deposit_desc_of, derive_deposit_address,
    derive_unvault_address, emergency_addr_ok, network_name, unvault_addr_of, unvault_buildable,
    unvault_desc_derivable, unvault_desc_of, ChainNetwork, DerivationError,
};
use crate::text::dec_str;
use crate::text::u32_dec_string;

verus! {

/// Everything we need to know to talk to the chain backend.
#[derive(Debug, Clone)]
pub struct BitcoindConfig {
    /// The network the chain backend runs on.
    pub network: ChainNetwork,
    /// The `host:port` the chain backend RPC listens on.
    pub addr: String,
    /// The path of the chain backend's authentication cookie.
    pub cookie_path: String,
    /// How often to poll the chain backend, in seconds.
    pub poll_interval_secs: u64,
}

/// The last block we heard about: replaced wholesale on update, never
/// partially mutated.
#[derive(Debug, Clone)]
pub struct BlockchainTip {
    pub height: u32,
    pub hash: Vec<u8>,
}

/// One cosigning server: where it listens and its static public key.
#[derive(Debug, Clone)]
pub struct CosignerConfig {
    pub host: String,
    pub noise_key: NoisePubKey,
}

/// The stakeholder-specific configuration: our stakeholder extended public
/// key and the emergency address.
#[derive(Debug, Clone)]
pub struct StakeholderConfig {
    pub xpub: String,
    pub emergency_address: String,
}

/// The manager-specific configuration: our manager extended public key and
/// the cosigning servers.
#[derive(Debug, Clone)]
pub struct ManagerConfig {
    pub xpub: String,
    pub cosigners: Vec<CosignerConfig>,
}

/// The validated static configuration the daemon is bootstrapped from.
#[derive(Debug, Clone)]
pub struct Config {
    pub bitcoind_config: BitcoindConfig,
    /// Set if we act as a stakeholder.
    pub stakeholder_config: Option<StakeholderConfig>,
    /// Set if we act as a manager.
    pub manager_config: Option<ManagerConfig>,
    /// The extended public keys of every stakeholder.
    pub stakeholders_xpubs: Vec<String>,
    /// The extended public keys of every manager.
    pub managers_xpubs: Vec<String>,
    /// The keys of every cosigning server.
    pub cosigners_keys: Vec<String>,
    /// The relative timelock of the unvault descriptor.
    pub unvault_csv: u32,
    /// The `host:port` the coordinator listens on.
    pub coordinator_host: String,
    /// The coordinator's static public key.
    pub coordinator_noise_key: NoisePubKey,
    /// How often to poll the coordinator, in seconds.
    pub coordinator_poll_seconds: u64,
    /// Whether to run as a daemon (default: yes).
    pub daemon: Option<bool>,
}

/// A configuration was rejected while building the daemon state.
#[derive(Debug, Clone, Copy, PartialEq, Eq, Structural)]
pub enum ConfigError {
    /// Neither a stakeholder nor a manager key is configured.
    MissingRole,
    /// One of the three descriptors could not be built from the key sets.
    Descriptor,
    /// The emergency address is not well-formed for the configured network.
    EmergencyAddress,
}

impl ConfigError {
    /// A human-readable description of the error.
    pub fn message(&self) -> (r: String)
        ensures
            *self is MissingRole ==> r@ == "Neither a stakeholder nor a manager key is configured"@,
            *self is Descriptor ==> r@ == "Could not build the descriptors from the key sets"@,
            *self is EmergencyAddress ==> r@
                == "The emergency address is not well-formed for the configured network"@,
    {
        match *self {
            ConfigError::MissingRole => "Neither a stakeholder nor a manager key is configured"
                .to_owned(),
            ConfigError::Descriptor => "Could not build the descriptors from the key sets"
                .to_owned(),
            ConfigError::EmergencyAddress =>
                "The emergency address is not well-formed for the configured network".to_owned(),
        }
    }
}

/// Our global state.
#[derive(Debug, Clone)]
pub struct RevaultD {
    /// Everything we need to know to talk to the chain backend.
    pub bitcoind_config: BitcoindConfig,
    /// Last block we heard about.
    pub tip: Option<BlockchainTip>,
    /// Our stakeholder extended public key, if we are a stakeholder.
    pub our_stk_xpub: Option<String>,
    /// Our manager extended public key, if we are a manager.
    pub our_man_xpub: Option<String>,
    /// The miniscript descriptor of the deposit output scripts.
    pub deposit_descriptor: String,
    /// The miniscript descriptor of the unvault output scripts.
    pub unvault_descriptor: String,
    /// The miniscript descriptor of the CPFP output scripts.
    pub cpfp_descriptor: String,
    /// The emergency address, only present if we are a stakeholder.
    pub emergency_address: Option<String>,
    /// The first derivation index not handed out yet.
    pub current_unused_index: u32,
    /// The locktime to use on all created transactions. Always 0 for now.
    pub lock_time: u32,
    /// The relative timelock in the unvault descriptor.
    pub unvault_csv: u32,
    /// All the managers' public keys.
    pub managers_pubkeys: Vec<String>,
    /// The static private key we use to establish connections to servers.
    pub noise_secret: NoisePrivKey,
    /// The `host:port` the coordinator is listening on.
    pub coordinator_host: String,
    /// The coordinator's static public key.
    pub coordinator_noisekey: NoisePubKey,
    /// How often to poll the coordinator, in seconds.
    pub coordinator_poll_interval: u64,
    /// The host and static public key of each cosigning server, only set if
    /// we are a manager.
    pub cosigs: Option<Vec<CosignerConfig>>,
    /// A map from a script to its derivation index, with no script twice.
    pub derivation_index_map: Vec<(Vec<u8>, u32)>,
    /// The id of the wallet used in the storage, once assigned.
    pub wallet_id: Option<u32>,
    /// Where we store all our data.
    pub data_dir: String,
    /// Should we run as a daemon?
    pub daemon: bool,
}

/// The process-wide invariant of the daemon state.
pub open spec fn revaultd_wf(d: RevaultD) -> bool {
    &&& privkey_wf(d.noise_secret)
    &&& d.current_unused_index < 0x8000_0000
    &&& d.our_stk_xpub is Some || d.our_man_xpub is Some
    &&& (d.emergency_address is Some <==> d.our_stk_xpub is Some)
    &&& (d.cosigs is Some <==> d.our_man_xpub is Some)
    &&& d.lock_time == 0
}

/// The descriptor strings held by the state derive addresses at every
/// non-hardened index: true of every state `from_config` builds.
pub open spec fn descs_valid(d: RevaultD) -> bool {
    &&& deposit_desc_derivable(d.deposit_descriptor@)
    &&& unvault_desc_derivable(d.unvault_descriptor@)
}

/// How a state built from a configuration relates to it, field by field.
pub open spec fn built_from(c: Config, data_dir: String, key: NoisePrivKey, d: RevaultD) -> bool {
    &&& d.our_stk_xpub == (match c.stakeholder_config {
        Some(sc) => Some(sc.xpub),
        None => None::<String>,
    })
    &&& d.our_man_xpub == (match c.manager_config {
        Some(mc) => Some(mc.xpub),
        None => None::<String>,
    })
    &&& d.emergency_address == (match c.stakeholder_config {
        Some(sc) => Some(sc.emergency_address),
        None => None::<String>,
    })
    &&& (c.stakeholder_config matches Some(sc) ==> emergency_addr_ok(
        sc.emergency_address@,
        network_name(c.bitcoind_config.network),
    ))
    &&& d.cosigs == (match c.manager_config {
        Some(mc) => Some(mc.cosigners),
        None => None::<Vec<CosignerConfig>>,
    })
    &&& d.deposit_descriptor@ == deposit_desc_of(canonical_keys(key_views(c.stakeholders_xpubs@)))
    &&& d.unvault_descriptor@ == unvault_desc_of(
        canonical_keys(key_views(c.stakeholders_xpubs@)),
        canonical_keys(key_views(c.managers_xpubs@)),
        c.managers_xpubs@.len() as int,
        canonical_keys(key_views(c.cosigners_keys@)),
        c.unvault_csv as int,
    )
    &&& d.cpfp_descriptor@ == cpfp_desc_of(canonical_keys(key_views(c.managers_xpubs@)))
    &&& d.managers_pubkeys == c.managers_xpubs
    &&& d.bitcoind_config == c.bitcoind_config
    &&& d.coordinator_host == c.coordinator_host
    &&& d.coordinator_noisekey == c.coordinator_noise_key
    &&& d.coordinator_poll_interval == c.coordinator_poll_seconds
    &&& d.noise_secret == key
    &&& d.data_dir == data_dir
    &&& d.unvault_csv == c.unvault_csv
    &&& d.lock_time == 0
    &&& d.current_unused_index == 0
    &&& d.tip is None
    &&& d.wallet_id is None
    &&& d.derivation_index_map@.len() == 0
    &&& d.daemon == !(c.daemon matches Some(false))
}

/// Whether the key sets, timelock and emergency address of a configuration
/// are accepted when the daemon state is built from it.
pub open spec fn config_buildable(c: Config) -> bool {
    &&& deposit_buildable(canonical_keys(key_views(c.stakeholders_xpubs@)))
    &&& unvault_buildable(
        canonical_keys(key_views(c.stakeholders_xpubs@)),
        canonical_keys(key_views(c.managers_xpubs@)),
        c.managers_xpubs@.len() as int,
        canonical_keys(key_views(c.cosigners_keys@)),
        c.unvault_csv as int,
    )
    &&& cpfp_buildable(canonical_keys(key_views(c.managers_xpubs@)))
    &&& (c.stakeholder_config matches Some(sc) ==> emergency_addr_ok(
        sc.emergency_address@,
        network_name(c.bitcoind_config.network),
    ))
}

/// The name of the wallet used in the storage, derived from its id.
pub open spec fn wallet_name_of(id: u32) -> Seq<char> {
    "revaultd-watchonly-wallet-"@ + dec_str(id as nat)
}

/// Byte-wise equality of two scripts.
fn bytes_eq(a: &Vec<u8>, b: &Vec<u8>) -> (r: bool)
    ensures
        r == (a@ == b@),
{
    if a.len() != b.len() {
        return false;
    }
    let mut i: usize = 0;
    while i < a.len()
        invariant
            i <= a@.len(),
            a@.len() == b@.len(),
            forall|j: int| 0 <= j < i ==> a@[j] == b@[j],
        decreases a@.len() - i,
    {
        if a[i] != b[i] {
            return false;
        }
        i += 1;
    }
    proof {
        assert(a@ =~= b@);
    }
    true
}

/// The network-namespaced data directory under a base directory.
pub fn network_datadir(base: &str, network: ChainNetwork) -> (r: String)
    ensures
        r@ == base@ + "/"@ + network_name(network),
{
    let mut s = base.to_owned();
    s.append("/");
    let name = network.name();
    s.append(name.as_str());
    proof {
        assert(s@ =~= base@ + "/"@ + network_name(network));
    }
    s
}

impl RevaultD {
    /// Creates our global state by consuming the validated configuration.
    /// The caller owns the file system: it resolved and created the
    /// network-namespaced data directory and loaded (or generated) the static
    /// identity key beforehand, and hands both in.
    pub fn from_config(config: Config, data_dir: String, noise_secret: NoisePrivKey) -> (r: Result<
        RevaultD,
        ConfigError,
    >)
        requires
            privkey_wf(noise_secret),
        ensures
            (config.stakeholder_config is None && config.manager_config is None) <==> (r is Err
                && r->Err_0 is MissingRole),
            !(config.stakeholder_config is None && config.manager_config is None) ==> (r is Ok
                <==> config_buildable(config)),
            r is Ok ==> built_from(config, data_dir, noise_secret, r->Ok_0),
            r is Ok ==> revaultd_wf(r->Ok_0) && descs_valid(r->Ok_0),
            r is Ok ==> (r->Ok_0.our_stk_xpub is Some <==> config.stakeholder_config is Some)
                && (r->Ok_0.our_man_xpub is Some <==> config.manager_config is Some),
            !(config.stakeholder_config is None && config.manager_config is None) && (
            config.stakeholders_xpubs@.len() < 2 || config.stakeholders_xpubs@.len() > 20
                || config.managers_xpubs@.len() == 0 || config.managers_xpubs@.len() > 20 || (
            config.cosigners_keys@.len() != 0 && config.cosigners_keys@.len()
                != config.stakeholders_xpubs@.len()) || config.unvault_csv > 0xffff) ==> r is Err
                && r->Err_0 is Descriptor,
    {
        if config.stakeholder_config.is_none() && config.manager_config.is_none() {
            return Err(ConfigError::MissingRole);
        }
        let descriptors = match build_descriptors(
            &config.stakeholders_xpubs,
            &config.managers_xpubs,
            &config.cosigners_keys,
            config.unvault_csv,
        ) {
            Ok(t) => t,
            Err(_) => {
                return Err(ConfigError::Descriptor);
            },
        };
        let (deposit_descriptor, unvault_descriptor, cpfp_descriptor) = descriptors;
        let (our_stk_xpub, emergency_address) = match config.stakeholder_config {
            Some(sc) => {
                if !check_emergency_address(
                    sc.emergency_address.as_str(),
                    config.bitcoind_config.network,
                ) {
                    return Err(ConfigError::EmergencyAddress);
                }
                (Some(sc.xpub), Some(sc.emergency_address))
            },
            None => (None, None),
        };
        let (our_man_xpub, cosigs) = match config.manager_config {
            Some(mc) => (Some(mc.xpub), Some(mc.cosigners)),
            None => (None, None),
        };
        let daemon = !matches!(config.daemon, Some(false));
        Ok(
            RevaultD {
                bitcoind_config: config.bitcoind_config,
                tip: None,
                our_stk_xpub,
                our_man_xpub,
                deposit_descriptor,
                unvault_descriptor,
                cpfp_descriptor,
                emergency_address,
                current_unused_index: 0,
                lock_time: 0,
                unvault_csv: config.unvault_csv,
                managers_pubkeys: config.managers_xpubs,
                noise_secret,
                coordinator_host: config.coordinator_host,
                coordinator_noisekey: config.coordinator_noise_key,
                coordinator_poll_interval: config.coordinator_poll_seconds,
                cosigs,
                derivation_index_map: Vec::new(),
                wallet_id: None,
                data_dir,
                daemon,
            },
        )
    }

    /// A path under the data directory.
    fn file_from_datadir(&self, file_name: &str) -> (r: String)
        ensures
            r@ == self.data_dir@ + "/"@ + file_name@,
    {
        let mut s = self.data_dir.clone();
        s.append("/");
        s.append(file_name);
        proof {
            assert(s@ =~= self.data_dir@ + "/"@ + file_name@);
        }
        s
    }

    /// Our static public key, recomputed on demand from the private key,
    /// never cached.
    pub fn noise_pubkey(&self) -> (r: NoisePubKey)
        requires
            self.noise_secret.0@.len() == 32,
        ensures
            r.0@ == noise_public_key_of(self.noise_secret.0@),
            r.0@.len() == 32,
    {
        self.noise_secret.public_key()
    }

    /// The deposit address at a derivation index. An index in hardened
    /// territory (at or past 2^31) fails explicitly instead of silently
    /// deriving a hardened child.
    pub fn vault_address(&self, child_number: u32) -> (r: Result<String, DerivationError>)
        ensures
            child_number >= 0x8000_0000 ==> r is Err,
            r is Ok ==> child_number < 0x8000_0000 && r->Ok_0@ == deposit_addr_of(
                self.deposit_descriptor@,
                network_name(self.bitcoind_config.network),
                child_number as int,
            ),
            deposit_desc_derivable(self.deposit_descriptor@) && child_number < 0x8000_0000 ==> r
                is Ok,
    {
        if child_number >= 0x8000_0000 {
            return Err(DerivationError);
        }
        derive_deposit_address(
            self.deposit_descriptor.as_str(),
            self.bitcoind_config.network,
            child_number,
        )
    }

    /// The unvault address at a derivation index, with the same explicit
    /// failure on hardened indexes as [`Self::vault_address`].
    pub fn unvault_address(&self, child_number: u32) -> (r: Result<String, DerivationError>)
        ensures
            child_number >= 0x8000_0000 ==> r is Err,
            r is Ok ==> child_number < 0x8000_0000 && r->Ok_0@ == unvault_addr_of(
                self.unvault_descriptor@,
                network_name(self.bitcoind_config.network),
                child_number as int,
            ),
            unvault_desc_derivable(self.unvault_descriptor@) && child_number < 0x8000_0000 ==> r
                is Ok,
    {
        if child_number >= 0x8000_0000 {
            return Err(DerivationError);
        }
        derive_unvault_address(
            self.unvault_descriptor.as_str(),
            self.bitcoind_config.network,
            child_number,
        )
    }

    /// The number of not-yet-used addresses to keep watched ahead of the
    /// last used one.
    pub fn gap_limit(&self) -> (r: u32)
        ensures
            r == 100,
    {
        100
    }

    /// The name of the watch-only wallet used in the chain backend, once the
    /// storage assigned us a wallet id.
    pub fn watchonly_wallet_name(&self) -> (r: Option<String>)
        ensures
            self.wallet_id is None ==> r is None,
            self.wallet_id matches Some(id) ==> r matches Some(s) && s@ == wallet_name_of(id),
    {
        match &self.wallet_id {
            Some(id) => {
                let mut s = "revaultd-watchonly-wallet-".to_owned();
                let num = u32_dec_string(*id);
                s.append(num.as_str());
                proof {
                    assert(s@ =~= wallet_name_of(self.wallet_id->0));
                }
                Some(s)
            },
            None => None,
        }
    }

    /// The path of the log file.
    pub fn log_file(&self) -> (r: String)
        ensures
            r@ == self.data_dir@ + "/"@ + "log"@,
    {
        self.file_from_datadir("log")
    }

    /// The path of the process-id file.
    pub fn pid_file(&self) -> (r: String)
        ensures
            r@ == self.data_dir@ + "/"@ + "revaultd.pid"@,
    {
        self.file_from_datadir("revaultd.pid")
    }

    /// The path of the storage file.
    pub fn db_file(&self) -> (r: String)
        ensures
            r@ == self.data_dir@ + "/"@ + "revaultd.sqlite3"@,
    {
        self.file_from_datadir("revaultd.sqlite3")
    }

    /// The path of the watch-only wallet file, once the storage assigned us
    /// a wallet id.
    pub fn watchonly_wallet_file(&self) -> (r: Option<String>)
        ensures
            self.wallet_id is None ==> r is None,
            self.wallet_id matches Some(id) ==> r matches Some(s) && s@ == self.data_dir@ + "/"@
                + wallet_name_of(id),
    {
        match self.watchonly_wallet_name() {
            Some(name) => Some(self.file_from_datadir(name.as_str())),
            None => None,
        }
    }

    /// The path of the control socket.
    pub fn rpc_socket_file(&self) -> (r: String)
        ensures
            r@ == self.data_dir@ + "/"@ + "revaultd_rpc"@,
    {
        self.file_from_datadir("revaultd_rpc")
    }

    /// The derivation index a script is watched at, if any.
    pub fn derivation_index(&self, script: &Vec<u8>) -> (r: Option<u32>)
        ensures
            r matches Some(i) ==> exists|j: int|
                0 <= j < self.derivation_index_map@.len() && (
                #[trigger] self.derivation_index_map@[j]).0@ == script@
                    && self.derivation_index_map@[j].1 == i,
            r is None ==> forall|j: int|
                0 <= j < self.derivation_index_map@.len() ==> (
                #[trigger] self.derivation_index_map@[j]).0@ != script@,
    {
        let mut i: usize = 0;
        while i < self.derivation_index_map.len()
            invariant
                i <= self.derivation_index_map@.len(),
                forall|j: int|
                    0 <= j < i ==> (#[trigger] self.derivation_index_map@[j]).0@ != script@,
            decreases self.derivation_index_map@.len() - i,
        {
            if bytes_eq(&self.derivation_index_map[i].0, script) {
                return Some(self.derivation_index_map[i].1);
            }
            i += 1;
        }
        None
    }

    /// Watches a script at a derivation index. The map is append-only and
    /// never holds a script twice: recording a script that is already
    /// watched is a contract violation of the caller (see
    /// [`Self::derivation_index`]).
    pub fn record_script_index(&mut self, script: Vec<u8>, index: u32)
        requires
            forall|j: int|
                0 <= j < old(self).derivation_index_map@.len() ==> (#[trigger] old(
                    self,
                ).derivation_index_map@[j]).0@ != script@,
        ensures
            final(self).derivation_index_map@ == old(self).derivation_index_map@.push(
                (script, index),
            ),
            *final(self) == (RevaultD {
                derivation_index_map: final(self).derivation_index_map,
                ..*old(self)
            }),
    {
        self.derivation_index_map.push((script, index));
    }

    /// Records the last block we heard about: the tip is replaced wholesale,
    /// never partially mutated.
    pub fn update_tip(&mut self, tip: BlockchainTip)
        ensures
            *final(self) == (RevaultD { tip: Some(tip), ..*old(self) }),
    {
        self.tip = Some(tip);
    }

    /// Records the storage-assigned wallet id. It transitions once from
    /// unset to set: assigning it twice is a contract violation of the
    /// caller.
    pub fn set_wallet_id(&mut self, id: u32)
        requires
            old(self).wallet_id is None,
        ensures
            *final(self) == (RevaultD { wallet_id: Some(id), ..*old(self) }),
    {
        self.wallet_id = Some(id);
    }

    /// Whether we are a stakeholder.
    pub fn is_stakeholder(&self) -> (r: bool)
        ensures
            r == (self.our_stk_xpub is Some),
    {
        self.our_stk_xpub.is_some()
    }

    /// Whether we are a manager.
    pub fn is_manager(&self) -> (r: bool)
        ensures
            r == (self.our_man_xpub is Some),
    {
        self.our_man_xpub.is_some()
    }

    /// The deposit address at the first unused derivation index.
    pub fn deposit_address(&self) -> (r: Result<String, DerivationError>)
        ensures
            r is Ok ==> r->Ok_0@ == deposit_addr_of(
                self.deposit_descriptor@,
                network_name(self.bitcoind_config.network),
                self.current_unused_index as int,
            ),
            deposit_desc_derivable(self.deposit_descriptor@) && self.current_unused_index
                < 0x8000_0000 ==> r is Ok,
    {
        self.vault_address(self.current_unused_index)
    }

    /// The last deposit address to keep watched: the one at the first unused
    /// index plus the gap limit. An index at or past 2^31 fails explicitly
    /// instead of silently wrapping into hardened derivation.
    pub fn last_deposit_address(&self) -> (r: Result<String, DerivationError>)
        ensures
            self.current_unused_index as int + 100 >= 0x8000_0000 ==> r is Err,
            r is Ok ==> self.current_unused_index as int + 100 < 0x8000_0000 && r->Ok_0@
                == deposit_addr_of(
                self.deposit_descriptor@,
                network_name(self.bitcoind_config.network),
                self.current_unused_index as int + 100,
            ),
            deposit_desc_derivable(self.deposit_descriptor@) && self.current_unused_index as int
                + 100 < 0x8000_0000 ==> r is Ok,
    {
        let raw_index: u64 = self.current_unused_index as u64 + 100;
        if raw_index >= 0x8000_0000 {
            return Err(DerivationError);
        }
        self.vault_address(raw_index as u32)
    }

    /// The last unvault address to keep watched, as
    /// [`Self::last_deposit_address`] for the unvault descriptor.
    pub fn last_unvault_address(&self) -> (r: Result<String, DerivationError>)
        ensures
            self.current_unused_index as int + 100 >= 0x8000_0000 ==> r is Err,
            r is Ok ==> self.current_unused_index as int + 100 < 0x8000_0000 && r->Ok_0@
                == unvault_addr_of(
                self.unvault_descriptor@,
                network_name(self.bitcoind_config.network),
                self.current_unused_index as int + 100,
            ),
            unvault_desc_derivable(self.unvault_descriptor@) && self.current_unused_index as int
                + 100 < 0x8000_0000 ==> r is Ok,
    {
        let raw_index: u64 = self.current_unused_index as u64 + 100;
        if raw_index >= 0x8000_0000 {
            return Err(DerivationError);
        }
        self.unvault_address(raw_index as u32)
    }

    /// Every deposit address from index 0 up to the gap limit past the first
    /// unused index, for full-range rescans.
    pub fn all_deposit_addresses(&self) -> (r: Result<Vec<String>, DerivationError>)
        ensures
            r is Ok ==> r->Ok_0@.len() == self.current_unused_index as int + 100,
            r is Ok ==> forall|i: int|
                0 <= i < r->Ok_0@.len() ==> r->Ok_0@[i]@ == deposit_addr_of(
                    self.deposit_descriptor@,
                    network_name(self.bitcoind_config.network),
                    i,
                ),
            deposit_desc_derivable(self.deposit_descriptor@) && self.current_unused_index as int
                + 100 <= 0x8000_0000 ==> r is Ok,
    {
        let bound: u64 = self.current_unused_index as u64 + 100;
        if bound > 0x8000_0000 {
            return Err(DerivationError);
        }
        let n: u32 = bound as u32;
        let mut out: Vec<String> = Vec::new();
        let mut i: u32 = 0;
        while i < n
            invariant
                i <= n,
                n == self.current_unused_index as int + 100,
                n <= 0x8000_0000,
                out@.len() == i,
                forall|j: int|
                    0 <= j < i ==> out@[j]@ == deposit_addr_of(
                        self.deposit_descriptor@,
                        network_name(self.bitcoind_config.network),
                        j,
                    ),
            decreases n - i,
        {
            match self.vault_address(i) {
                Ok(a) => out.push(a),
                Err(e) => {
                    return Err(e);
                },
            }
            i += 1;
        }
        Ok(out)
    }

    /// Every unvault address from index 0 up to the gap limit past the first
    /// unused index, for full-range rescans.
    pub fn all_unvault_addresses(&self) -> (r: Result<Vec<String>, DerivationError>)
        ensures
            r is Ok ==> r->Ok_0@.len() == self.current_unused_index as int + 100,
            r is Ok ==> forall|i: int|
                0 <= i < r->Ok_0@.len() ==> r->Ok_0@[i]@ == unvault_addr_of(
                    self.unvault_descriptor@,
                    network_name(self.bitcoind_config.network),
                    i,
                ),
            unvault_desc_derivable(self.unvault_descriptor@) && self.current_unused_index as int
                + 100 <= 0x8000_0000 ==> r is Ok,
    {
        let bound: u64 = self.current_unused_index as u64 + 100;
        if bound > 0x8000_0000 {
            return Err(DerivationError);
        }
        let n: u32 = bound as u32;
        let mut out: Vec<String> = Vec::new();
        let mut i: u32 = 0;
        while i < n
            invariant
                i <= n,
                n == self.current_unused_index as int + 100,
                n <= 0x8000_0000,
                out@.len() == i,
                forall|j: int|
                    0 <= j < i ==> out@[j]@ == unvault_addr_of(
                        self.unvault_descriptor@,
                        network_name(self.bitcoind_config.network),
                        j,
                    ),
            decreases n - i,
        {
            match self.unvault_address(i) {
                Ok(a) => out.push(a),
                Err(e) => {
                    return Err(e);
                },
            }
            i += 1;
        }
        Ok(out)
    }
}

/// The last watched index always sits exactly one gap limit past the first
/// unused index: raising the first unused index by `k` shifts the last
/// watched index by `k`, for deposits and unvaults alike.
pub proof fn lemma_gap_limit_shift(d1: RevaultD, d2: RevaultD, k: int)
    requires
        d2.current_unused_index as int == d1.current_unused_index as int + k,
    ensures
        d2.current_unused_index as int + 100 == (d1.current_unused_index as int + 100) + k,
{
}

} // verus!
