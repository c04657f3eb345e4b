use revaultd::identity::NoisePrivKey;
use revaultd::revaultd::{
    BitcoindConfig, Config, ConfigError, CosignerConfig, ManagerConfig, RevaultD,
    StakeholderConfig,
};
use revaultd::scripts::{build_descriptors, ChainNetwork};

const STK_1: &str = "xpub6EHLFGpTTiZgHAHfBJ1LoepGFX5iyLeZ6CVtF9HhzeB1dkxLsEfkiJda78EKhSXuo2m8gQwAs4ZAbqaJixFYHMFWTL9DJX1KsAXS2VY5JJx/*";
const STK_2: &str = "xpub6F2U61Uh9FNX94mZE6EgdZ3p5Wg8af6MHzFhskEskkAZ9ns2uvsnHBskU47wYY63yiYv8WufvTuHCePwUjK9zhKT1Cce8JGLBptncpvALw6/*";
const MAN_1: &str = "xpub6Br1DUfrzxTVGo1sanuKDCUmSxDfLRrxLQBqpMqygkQLkQWodoyvvGtUV8Rp3r6d6BNYvedBSU8c7whhn2U8haRVxsWwuQiZ9LoFp7jXPQA/*";
const MAN_2: &str = "xpub6Cp57dqxsjzveK5XQYJmzRrofaMJLUC3zQjwNNKKWB9kPn1YtUrrPMXxXGQjs9r2RRQ7e9vExWLJinTZmaosezisGG9nTwEVV15iFQYzFfa/*";
const EMER_ADDR: &str = "bc1qnz0msqjqaw59zex2aw00rm565yg0rlpc5h3dvtps38w60ggw0seqwgjaa6";

fn stakeholders() -> Vec<String> {
    vec![STK_1.to_string(), STK_2.to_string()]
}

fn managers() -> Vec<String> {
    vec![MAN_1.to_string(), MAN_2.to_string()]
}

fn noise_key() -> NoisePrivKey {
    NoisePrivKey(vec![7u8; 32])
}

fn base_config() -> Config {
    Config {
        bitcoind_config: BitcoindConfig {
            network: ChainNetwork::Bitcoin,
            addr: "127.0.0.1:8332".to_string(),
            cookie_path: "/tmp/cookie".to_string(),
            poll_interval_secs: 30,
        },
        stakeholder_config: Some(StakeholderConfig {
            xpub: STK_1.to_string(),
            emergency_address: EMER_ADDR.to_string(),
        }),
        manager_config: None,
        stakeholders_xpubs: stakeholders(),
        managers_xpubs: managers(),
        cosigners_keys: Vec::new(),
        unvault_csv: 18,
        coordinator_host: "127.0.0.1:8383".to_string(),
        coordinator_noise_key: revaultd::identity::NoisePubKey(vec![3u8; 32]),
        coordinator_poll_seconds: 5,
        daemon: None,
    }
}

#[test]
fn stakeholder_only_bootstrap() {
    // Bootstrap with only a stakeholder key configured.
    let d = RevaultD::from_config(base_config(), "/data/bitcoin".to_string(), noise_key())
        .expect("Building the state");
    assert!(d.is_stakeholder());
    assert!(!d.is_manager());
    assert!(d.emergency_address.is_some());
    assert_eq!(d.emergency_address.as_deref(), Some(EMER_ADDR));
    assert!(d.cosigs.is_none());
    assert_eq!(d.current_unused_index, 0);
    assert_eq!(d.lock_time, 0);
    assert_eq!(d.unvault_csv, 18);
    assert!(d.tip.is_none());
    assert!(d.wallet_id.is_none());
    assert!(d.derivation_index_map.is_empty());
    assert!(d.daemon);
    // The static public identity is recomputed on demand from the secret.
    let pk = d.noise_pubkey();
    assert_eq!(pk.0.len(), 32);
    assert_eq!(pk.0, noise_key().public_key().0);
}

#[test]
fn manager_only_bootstrap() {
    let mut c = base_config();
    c.stakeholder_config = None;
    c.manager_config = Some(ManagerConfig {
        xpub: MAN_1.to_string(),
        cosigners: vec![CosignerConfig {
            host: "127.0.0.1:9000".to_string(),
            noise_key: revaultd::identity::NoisePubKey(vec![9u8; 32]),
        }],
    });
    c.daemon = Some(false);
    let d = RevaultD::from_config(c, "/data/bitcoin".to_string(), noise_key())
        .expect("Building the state");
    assert!(!d.is_stakeholder());
    assert!(d.is_manager());
    assert!(d.emergency_address.is_none());
    assert_eq!(d.cosigs.as_ref().map(|c| c.len()), Some(1));
    assert!(!d.daemon);
}

#[test]
fn missing_role_is_rejected() {
    let mut c = base_config();
    c.stakeholder_config = None;
    c.manager_config = None;
    let e = RevaultD::from_config(c, "/data/bitcoin".to_string(), noise_key())
        .expect_err("No role configured");
    assert_eq!(e, ConfigError::MissingRole);
}

#[test]
fn single_stakeholder_is_rejected() {
    let mut c = base_config();
    c.stakeholders_xpubs = vec![STK_1.to_string()];
    let e = RevaultD::from_config(c, "/data/bitcoin".to_string(), noise_key())
        .expect_err("One stakeholder only");
    assert_eq!(e, ConfigError::Descriptor);
}

#[test]
fn oversized_timelock_is_rejected() {
    let mut c = base_config();
    c.unvault_csv = 0x1_0000;
    let e = RevaultD::from_config(c, "/data/bitcoin".to_string(), noise_key())
        .expect_err("Timelock above the consensus mask");
    assert_eq!(e, ConfigError::Descriptor);
}

#[test]
fn bad_emergency_address_is_rejected() {
    // A P2WPKH address is no valid emergency destination.
    let mut c = base_config();
    c.stakeholder_config = Some(StakeholderConfig {
        xpub: STK_1.to_string(),
        emergency_address: "bc1qw3w0nt60tzh4xqdhx7hmf5uh0nczxhcr8lt7ec".to_string(),
    });
    let e = RevaultD::from_config(c, "/data/bitcoin".to_string(), noise_key())
        .expect_err("P2WPKH emergency address");
    assert_eq!(e, ConfigError::EmergencyAddress);

    let mut c = base_config();
    c.stakeholder_config = Some(StakeholderConfig {
        xpub: STK_1.to_string(),
        emergency_address: "not-an-address".to_string(),
    });
    RevaultD::from_config(c, "/data/bitcoin".to_string(), noise_key())
        .expect_err("Garbage emergency address");
}

#[test]
fn descriptors_are_deterministic() {
    // Identical key sets and timelock give byte-identical descriptors.
    let a = build_descriptors(&stakeholders(), &managers(), &Vec::new(), 18).expect("Compiling");
    let b = build_descriptors(&stakeholders(), &managers(), &Vec::new(), 18).expect("Compiling");
    assert_eq!(a, b);
    // A different timelock changes the unvault descriptor and only it.
    let c = build_descriptors(&stakeholders(), &managers(), &Vec::new(), 19).expect("Compiling");
    assert_eq!(a.0, c.0);
    assert_ne!(a.1, c.1);
    assert_eq!(a.2, c.2);
}

#[test]
fn cosigner_count_mismatch_is_rejected() {
    // A non-empty cosigner set must pair up with the stakeholders.
    let cosigners = vec![MAN_2.to_string()];
    build_descriptors(&stakeholders(), &managers(), &cosigners, 18)
        .expect_err("One cosigner for two stakeholders");
}

#[test]
fn descriptors_ignore_key_order() {
    // The engine sorts each key set into its canonical order before
    // composing: listing the keys backwards changes nothing.
    let a = build_descriptors(&stakeholders(), &managers(), &Vec::new(), 18).expect("Compiling");
    let rev_stks = vec![STK_2.to_string(), STK_1.to_string()];
    let rev_mans = vec![MAN_2.to_string(), MAN_1.to_string()];
    let b = build_descriptors(&rev_stks, &rev_mans, &Vec::new(), 18).expect("Compiling");
    assert_eq!(a, b);
}

#[test]
fn addresses_derive_and_differ() {
    let d = RevaultD::from_config(base_config(), "/data/bitcoin".to_string(), noise_key())
        .expect("Building the state");
    let a0 = d.vault_address(0).expect("Deriving at 0");
    let a1 = d.vault_address(1).expect("Deriving at 1");
    // Real derived mainnet P2WSH addresses, one per index.
    assert!(a0.starts_with("bc1"));
    assert!(a1.starts_with("bc1"));
    assert_ne!(a0, a1);
    assert_ne!(a0, d.deposit_descriptor);
    let u0 = d.unvault_address(0).expect("Deriving at 0");
    assert!(u0.starts_with("bc1"));
    assert_ne!(u0, a0);
    assert_eq!(d.deposit_address().expect("At the unused index"), a0);
}

#[test]
fn gap_limit_window() {
    let mut d = RevaultD::from_config(base_config(), "/data/bitcoin".to_string(), noise_key())
        .expect("Building the state");
    assert_eq!(d.gap_limit(), 100);
    // The last watched address always sits one gap limit past the first
    // unused index, for deposits and unvaults alike.
    assert_eq!(
        d.last_deposit_address().expect("In range"),
        d.vault_address(100).expect("In range")
    );
    assert_eq!(
        d.last_unvault_address().expect("In range"),
        d.unvault_address(100).expect("In range")
    );
    // Raising the first unused index by k shifts the window by k.
    d.current_unused_index = 7;
    assert_eq!(
        d.last_deposit_address().expect("In range"),
        d.vault_address(107).expect("In range")
    );
}

#[test]
fn hardened_indexes_fail_explicitly() {
    let mut d = RevaultD::from_config(base_config(), "/data/bitcoin".to_string(), noise_key())
        .expect("Building the state");
    assert!(d.vault_address(0x8000_0000).is_err());
    assert!(d.vault_address(u32::MAX).is_err());
    assert!(d.unvault_address(0x8000_0000).is_err());
    assert!(d.vault_address(0x7fff_ffff).is_ok());
    // A window that would reach hardened territory fails too.
    d.current_unused_index = 0x8000_0000 - 100;
    assert!(d.last_deposit_address().is_err());
    assert!(d.last_unvault_address().is_err());
    d.current_unused_index = 0x8000_0000 - 101;
    assert!(d.last_deposit_address().is_ok());
}

#[test]
fn all_addresses_cover_the_window() {
    let mut d = RevaultD::from_config(base_config(), "/data/bitcoin".to_string(), noise_key())
        .expect("Building the state");
    d.current_unused_index = 2;
    let deposits = d.all_deposit_addresses().expect("In range");
    assert_eq!(deposits.len(), 102);
    assert_eq!(deposits[0], d.vault_address(0).expect("In range"));
    assert_eq!(deposits[101], d.vault_address(101).expect("In range"));
    let unvaults = d.all_unvault_addresses().expect("In range");
    assert_eq!(unvaults.len(), 102);
    assert_eq!(unvaults[5], d.unvault_address(5).expect("In range"));
}

#[test]
fn derived_file_paths() {
    let d = RevaultD::from_config(base_config(), "/data/bitcoin".to_string(), noise_key())
        .expect("Building the state");
    assert_eq!(d.log_file(), "/data/bitcoin/log");
    assert_eq!(d.pid_file(), "/data/bitcoin/revaultd.pid");
    assert_eq!(d.db_file(), "/data/bitcoin/revaultd.sqlite3");
    assert_eq!(d.rpc_socket_file(), "/data/bitcoin/revaultd_rpc");
}

#[test]
fn watchonly_wallet_naming() {
    let mut d = RevaultD::from_config(base_config(), "/data/bitcoin".to_string(), noise_key())
        .expect("Building the state");
    assert!(d.watchonly_wallet_name().is_none());
    assert!(d.watchonly_wallet_file().is_none());
    d.wallet_id = Some(1);
    assert_eq!(
        d.watchonly_wallet_name().as_deref(),
        Some("revaultd-watchonly-wallet-1")
    );
    assert_eq!(
        d.watchonly_wallet_file().as_deref(),
        Some("/data/bitcoin/revaultd-watchonly-wallet-1")
    );
    d.wallet_id = Some(4042);
    assert_eq!(
        d.watchonly_wallet_name().as_deref(),
        Some("revaultd-watchonly-wallet-4042")
    );
    d.wallet_id = Some(0);
    assert_eq!(
        d.watchonly_wallet_name().as_deref(),
        Some("revaultd-watchonly-wallet-0")
    );
}

#[test]
fn watched_script_tracking() {
    let mut d = RevaultD::from_config(base_config(), "/data/bitcoin".to_string(), noise_key())
        .expect("Building the state");
    let script_a = vec![0x00u8, 0x20, 0x01];
    let script_b = vec![0x00u8, 0x20, 0x02];
    assert_eq!(d.derivation_index(&script_a), None);
    d.record_script_index(script_a.clone(), 4);
    assert_eq!(d.derivation_index(&script_a), Some(4));
    assert_eq!(d.derivation_index(&script_b), None);
    d.record_script_index(script_b.clone(), 5);
    assert_eq!(d.derivation_index(&script_a), Some(4));
    assert_eq!(d.derivation_index(&script_b), Some(5));
    assert_eq!(d.derivation_index_map.len(), 2);
}

#[test]
fn tip_and_wallet_id_updates() {
    let mut d = RevaultD::from_config(base_config(), "/data/bitcoin".to_string(), noise_key())
        .expect("Building the state");
    assert!(d.tip.is_none());
    d.update_tip(revaultd::revaultd::BlockchainTip { height: 42, hash: vec![0xaa; 32] });
    assert_eq!(d.tip.as_ref().map(|t| t.height), Some(42));
    assert!(d.wallet_id.is_none());
    d.set_wallet_id(1);
    assert_eq!(d.wallet_id, Some(1));
}

#[test]
fn network_datadir_paths() {
    assert_eq!(
        revaultd::revaultd::network_datadir("/home/user/.revault", ChainNetwork::Bitcoin),
        "/home/user/.revault/bitcoin"
    );
    assert_eq!(
        revaultd::revaultd::network_datadir("/home/user/.revault", ChainNetwork::Regtest),
        "/home/user/.revault/regtest"
    );
    assert_eq!(ChainNetwork::Testnet.name(), "testnet");
    assert_eq!(ChainNetwork::Signet.name(), "signet");
}
