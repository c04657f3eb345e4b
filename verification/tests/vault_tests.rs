use revaultd::status::VaultStatus;
use revaultd::vault::{DepositOutput, PresignedTx, Vault};

fn txo() -> DepositOutput {
    DepositOutput {
        value: 120_000_000,
        script_pubkey: vec![0x00, 0x20, 0xab, 0xcd],
    }
}

fn tx(tag: u8) -> PresignedTx {
    PresignedTx { raw: vec![tag, 0x01, 0x02] }
}

#[test]
fn vault_starts_unconfirmed() {
    let v = Vault::new(txo());
    assert_eq!(v.status, VaultStatus::Unconfirmed);
    assert!(v.vault_tx.is_none());
    assert!(v.emergency_tx.is_none());
    assert!(v.unvault_tx.is_none());
    assert!(v.cancel_tx.is_none());
    assert!(v.unvault_emergency_tx.is_none());
}

#[test]
fn vault_pipeline_for_stakeholder() {
    let mut v = Vault::new(txo());
    assert!(v.can_advance(VaultStatus::Funded, true));
    v.advance(VaultStatus::Funded, true);

    // The emergency transaction justifies Secured.
    assert!(!v.can_advance(VaultStatus::Secured, true));
    v.emergency_tx = Some(tx(1));
    assert!(v.can_advance(VaultStatus::Secured, true));
    v.advance(VaultStatus::Secured, true);

    // Unvault, cancel and unvault-emergency justify Active.
    assert!(!v.can_advance(VaultStatus::Active, true));
    v.unvault_tx = Some(tx(2));
    v.cancel_tx = Some(tx(3));
    assert!(!v.can_advance(VaultStatus::Active, true));
    v.unvault_emergency_tx = Some(tx(4));
    assert!(v.can_advance(VaultStatus::Active, true));
    v.advance(VaultStatus::Active, true);

    v.advance(VaultStatus::Unvaulting, true);
    v.advance(VaultStatus::Unvaulted, true);
    v.advance(VaultStatus::Spendable, true);
    v.advance(VaultStatus::Spending, true);
    v.advance(VaultStatus::Spent, true);
    assert_eq!(v.status, VaultStatus::Spent);
}

#[test]
fn vault_active_needs_unvault_tx() {
    // A vault whose unvault transaction is absent may not become Active,
    // whatever else it holds.
    let mut v = Vault::new(txo());
    v.advance(VaultStatus::Funded, true);
    v.emergency_tx = Some(tx(1));
    v.advance(VaultStatus::Secured, true);
    v.cancel_tx = Some(tx(3));
    v.unvault_emergency_tx = Some(tx(4));
    assert!(!v.can_advance(VaultStatus::Active, true));
}

#[test]
fn vault_manager_needs_no_emergency() {
    // A manager-only daemon never holds the emergency transactions and may
    // still secure and activate its vaults.
    let mut v = Vault::new(txo());
    v.advance(VaultStatus::Funded, false);
    assert!(v.can_advance(VaultStatus::Secured, false));
    v.advance(VaultStatus::Secured, false);
    v.unvault_tx = Some(tx(2));
    v.cancel_tx = Some(tx(3));
    assert!(v.can_advance(VaultStatus::Active, false));
    v.advance(VaultStatus::Active, false);
    assert_eq!(v.status, VaultStatus::Active);
}

#[test]
fn vault_no_path_back() {
    let v = Vault::new(txo());
    // The lifecycle never returns to Unconfirmed, and terminal statuses
    // cannot be left.
    let mut spent = v.clone();
    spent.status = VaultStatus::Spent;
    assert!(!spent.can_advance(VaultStatus::Unconfirmed, true));
    assert!(!spent.can_advance(VaultStatus::Active, true));
    let mut canceled = v.clone();
    canceled.status = VaultStatus::Canceled;
    assert!(!canceled.can_advance(VaultStatus::Funded, true));
}

#[test]
fn vault_reapplying_status_is_noop() {
    let mut v = Vault::new(txo());
    v.advance(VaultStatus::Funded, true);
    assert!(v.can_advance(VaultStatus::Funded, true));
    v.advance(VaultStatus::Funded, true);
    assert_eq!(v.status, VaultStatus::Funded);
}

#[test]
fn vault_emergency_branches() {
    let mut v = Vault::new(txo());
    v.advance(VaultStatus::Funded, true);
    v.emergency_tx = Some(tx(1));
    assert!(v.can_advance(VaultStatus::EmergencyVaulting, true));
    v.advance(VaultStatus::EmergencyVaulting, true);
    v.advance(VaultStatus::EmergencyVaulted, true);
    assert_eq!(v.status, VaultStatus::EmergencyVaulted);

    let mut w = Vault::new(txo());
    w.advance(VaultStatus::Funded, true);
    w.emergency_tx = Some(tx(1));
    w.advance(VaultStatus::Secured, true);
    w.unvault_tx = Some(tx(2));
    w.cancel_tx = Some(tx(3));
    w.unvault_emergency_tx = Some(tx(4));
    w.advance(VaultStatus::Active, true);
    w.advance(VaultStatus::Unvaulting, true);
    assert!(w.can_advance(VaultStatus::UnvaultEmergencyVaulting, true));
    w.advance(VaultStatus::UnvaultEmergencyVaulting, true);
    w.advance(VaultStatus::UnvaultEmergencyVaulted, true);
    assert_eq!(w.status, VaultStatus::UnvaultEmergencyVaulted);
}
