//! A vault: one confirmed deposit output paying to the deposit descriptor,
//! together with the subset of pre-signed transactions we hold for it, and
//! the transition rules of its lifecycle state machine.

use vstd::prelude::*;

use crate::status::VaultStatus;

verus! {

/// A pre-signed transaction held for a vault, in its raw serialized form.
#[derive(Debug, Clone)]
pub struct PresignedTx {
    pub raw: Vec<u8>,
}

/// The deposit output a vault is built on: its amount and its script.
#[derive(Debug, Clone)]
pub struct DepositOutput {
    pub value: u64,
    pub script_pubkey: Vec<u8>,
}

/// A vault is a confirmed deposit output for which we hold a set of
/// pre-signed transactions (emergency, cancel, unvault). Depending on its
/// status we may not yet possess part — or the entirety — of them, and a
/// manager-only daemon never holds the emergency transactions.
#[derive(Debug, Clone)]
pub struct Vault {
    pub deposit_txo: DepositOutput,
    pub status: VaultStatus,
    pub vault_tx: Option<PresignedTx>,
    pub emergency_tx: Option<PresignedTx>,
    pub unvault_tx: Option<PresignedTx>,
    pub cancel_tx: Option<PresignedTx>,
    pub unvault_emergency_tx: Option<PresignedTx>,
}

/// The statuses a vault can leave towards the emergency branch before its
/// unvault transaction was broadcast.
pub open spec fn is_pre_unvault(s: VaultStatus) -> bool {
    ||| s == VaultStatus::Funded
    ||| s == VaultStatus::Secured
    ||| s == VaultStatus::Active
}

/// The statuses a vault can leave towards the unvault-emergency branch, after
/// its unvault transaction was broadcast.
pub open spec fn is_post_unvault(s: VaultStatus) -> bool {
    ||| s == VaultStatus::Unvaulting
    ||| s == VaultStatus::Unvaulted
    ||| s == VaultStatus::Spendable
    ||| s == VaultStatus::Spending
}

/// The statuses that lie at or past `Secured` in the pipeline: the emergency
/// transaction (for a stakeholder) must be held.
pub open spec fn secured_or_later(s: VaultStatus) -> bool {
    !(s == VaultStatus::Unconfirmed || s == VaultStatus::Funded)
}

/// The statuses that lie at or past `Active` in the pipeline: the unvault and
/// cancel transactions (and, for a stakeholder, the unvault-emergency
/// transaction) must be held.
pub open spec fn active_or_later(s: VaultStatus) -> bool {
    ||| s == VaultStatus::Active
    ||| s == VaultStatus::Unvaulting
    ||| s == VaultStatus::Unvaulted
    ||| s == VaultStatus::Canceling
    ||| s == VaultStatus::Canceled
    ||| s == VaultStatus::Spendable
    ||| s == VaultStatus::Spending
    ||| s == VaultStatus::Spent
    ||| s == VaultStatus::UnvaultEmergencyVaulting
    ||| s == VaultStatus::UnvaultEmergencyVaulted
}

/// The transition relation of the vault lifecycle: the pipeline in order,
/// with the cancel branch and the two emergency branches.
pub open spec fn next_status_ok(from: VaultStatus, to: VaultStatus) -> bool {
    ||| (from == VaultStatus::Unconfirmed && to == VaultStatus::Funded)
    ||| (from == VaultStatus::Funded && to == VaultStatus::Secured)
    ||| (from == VaultStatus::Secured && to == VaultStatus::Active)
    ||| (from == VaultStatus::Active && to == VaultStatus::Unvaulting)
    ||| (from == VaultStatus::Unvaulting && to == VaultStatus::Unvaulted)
    ||| (from == VaultStatus::Unvaulted && to == VaultStatus::Spendable)
    ||| (from == VaultStatus::Spendable && to == VaultStatus::Spending)
    ||| (from == VaultStatus::Spending && to == VaultStatus::Spent)
    ||| ((from == VaultStatus::Active || from == VaultStatus::Unvaulting) && to
        == VaultStatus::Canceling)
    ||| (from == VaultStatus::Canceling && to == VaultStatus::Canceled)
    ||| (is_pre_unvault(from) && to == VaultStatus::EmergencyVaulting)
    ||| (from == VaultStatus::EmergencyVaulting && to == VaultStatus::EmergencyVaulted)
    ||| (is_post_unvault(from) && to == VaultStatus::UnvaultEmergencyVaulting)
    ||| (from == VaultStatus::UnvaultEmergencyVaulting && to
        == VaultStatus::UnvaultEmergencyVaulted)
}

/// The structural invariant of a vault, for a daemon that is (or is not) a
/// stakeholder: a manager-only daemon never holds the emergency transactions,
/// and every status holds the pre-signed transactions that justify it.
pub open spec fn vault_wf(v: Vault, stakeholder: bool) -> bool {
    &&& !stakeholder ==> v.emergency_tx is None && v.unvault_emergency_tx is None
    &&& secured_or_later(v.status) && stakeholder ==> v.emergency_tx is Some
    &&& active_or_later(v.status) ==> v.unvault_tx is Some && v.cancel_tx is Some && (stakeholder
        ==> v.unvault_emergency_tx is Some)
}

/// The pre-signed transactions a vault must hold before it may enter `to`:
/// the state machine must never advance past a justification it does not
/// hold.
pub open spec fn transition_justified(v: Vault, to: VaultStatus, stakeholder: bool) -> bool {
    &&& to == VaultStatus::Secured && stakeholder ==> v.emergency_tx is Some
    &&& to == VaultStatus::Active ==> v.unvault_tx is Some && v.cancel_tx is Some && (stakeholder
        ==> v.unvault_emergency_tx is Some)
    &&& to == VaultStatus::Unvaulting ==> v.unvault_tx is Some
    &&& to == VaultStatus::Canceling ==> v.cancel_tx is Some
    &&& to == VaultStatus::EmergencyVaulting && stakeholder ==> v.emergency_tx is Some
    &&& to == VaultStatus::UnvaultEmergencyVaulting && stakeholder ==> v.unvault_emergency_tx
        is Some
}

impl Vault {
    /// A fresh vault on a deposit output that is not yet confirmed: no
    /// pre-signed transaction is held yet.
    pub fn new(deposit_txo: DepositOutput) -> (r: Vault)
        ensures
            r.status == VaultStatus::Unconfirmed,
            r.deposit_txo == deposit_txo,
            r.vault_tx is None && r.emergency_tx is None && r.unvault_tx is None && r.cancel_tx
                is None && r.unvault_emergency_tx is None,
            vault_wf(r, true),
            vault_wf(r, false),
    {
        Vault {
            deposit_txo,
            status: VaultStatus::Unconfirmed,
            vault_tx: None,
            emergency_tx: None,
            unvault_tx: None,
            cancel_tx: None,
            unvault_emergency_tx: None,
        }
    }

    /// Whether the lifecycle allows advancing to `to` from the current
    /// status, with the justifying pre-signed transactions held. Re-applying
    /// the current status is allowed and is a no-op.
    pub fn can_advance(&self, to: VaultStatus, stakeholder: bool) -> (r: bool)
        ensures
            r == ((next_status_ok(self.status, to) || to == self.status) && transition_justified(
                *self,
                to,
                stakeholder,
            )),
    {
        let from = self.status;
        let edge = (matches!(from, VaultStatus::Unconfirmed) && matches!(to, VaultStatus::Funded))
            || (matches!(from, VaultStatus::Funded) && matches!(to, VaultStatus::Secured)) || (
        matches!(from, VaultStatus::Secured) && matches!(to, VaultStatus::Active)) || (matches!(
            from,
            VaultStatus::Active,
        ) && matches!(to, VaultStatus::Unvaulting)) || (matches!(from, VaultStatus::Unvaulting)
            && matches!(to, VaultStatus::Unvaulted)) || (matches!(from, VaultStatus::Unvaulted)
            && matches!(to, VaultStatus::Spendable)) || (matches!(from, VaultStatus::Spendable)
            && matches!(to, VaultStatus::Spending)) || (matches!(from, VaultStatus::Spending)
            && matches!(to, VaultStatus::Spent)) || ((matches!(from, VaultStatus::Active)
            || matches!(from, VaultStatus::Unvaulting)) && matches!(to, VaultStatus::Canceling))
            || (matches!(from, VaultStatus::Canceling) && matches!(to, VaultStatus::Canceled)) || ((
        matches!(from, VaultStatus::Funded) || matches!(from, VaultStatus::Secured) || matches!(
            from,
            VaultStatus::Active,
        )) && matches!(to, VaultStatus::EmergencyVaulting)) || (matches!(
            from,
            VaultStatus::EmergencyVaulting,
        ) && matches!(to, VaultStatus::EmergencyVaulted)) || ((matches!(
            from,
            VaultStatus::Unvaulting,
        ) || matches!(from, VaultStatus::Unvaulted) || matches!(from, VaultStatus::Spendable)
            || matches!(from, VaultStatus::Spending)) && matches!(
            to,
            VaultStatus::UnvaultEmergencyVaulting,
        )) || (matches!(from, VaultStatus::UnvaultEmergencyVaulting) && matches!(
            to,
            VaultStatus::UnvaultEmergencyVaulted,
        ));
        let allowed = edge || to == from;
        let justified = (!(matches!(to, VaultStatus::Secured) && stakeholder)
            || self.emergency_tx.is_some()) && (!matches!(to, VaultStatus::Active) || (
        self.unvault_tx.is_some() && self.cancel_tx.is_some() && (!stakeholder
            || self.unvault_emergency_tx.is_some()))) && (!matches!(to, VaultStatus::Unvaulting)
            || self.unvault_tx.is_some()) && (!matches!(to, VaultStatus::Canceling)
            || self.cancel_tx.is_some()) && (!(matches!(to, VaultStatus::EmergencyVaulting)
            && stakeholder) || self.emergency_tx.is_some()) && (!(matches!(
            to,
            VaultStatus::UnvaultEmergencyVaulting,
        ) && stakeholder) || self.unvault_emergency_tx.is_some());
        allowed && justified
    }

    /// Advances the vault to `to`. Asking for a transition the lifecycle does
    /// not allow, or whose justifying pre-signed transaction is absent, is a
    /// contract violation of the caller, not a recoverable error; re-applying
    /// the current status is a no-op. The invariant is preserved.
    pub fn advance(&mut self, to: VaultStatus, stakeholder: bool)
        requires
            vault_wf(*old(self), stakeholder),
            next_status_ok(old(self).status, to) || to == old(self).status,
            transition_justified(*old(self), to, stakeholder),
        ensures
            final(self).status == to,
            vault_wf(*final(self), stakeholder),
            final(self).deposit_txo == old(self).deposit_txo,
            final(self).vault_tx == old(self).vault_tx,
            final(self).emergency_tx == old(self).emergency_tx,
            final(self).unvault_tx == old(self).unvault_tx,
            final(self).cancel_tx == old(self).cancel_tx,
            final(self).unvault_emergency_tx == old(self).unvault_emergency_tx,
    {
        self.status = to;
    }
}

/// A vault with status `Active` necessarily holds its unvault and cancel
/// transactions, and — for a stakeholder — its unvault-emergency transaction.
pub proof fn lemma_active_has_justification(v: Vault, stakeholder: bool)
    requires
        vault_wf(v, stakeholder),
        v.status == VaultStatus::Active,
    ensures
        v.unvault_tx is Some,
        v.cancel_tx is Some,
        stakeholder ==> v.unvault_emergency_tx is Some,
{
}

/// Without its unvault transaction a vault cannot satisfy the invariant in
/// status `Active`: removing the transaction and re-evaluating must not allow
/// `Active`.
pub proof fn lemma_no_unvault_no_active(v: Vault, stakeholder: bool)
    requires
        v.status == VaultStatus::Active,
        v.unvault_tx is None,
    ensures
        !vault_wf(v, stakeholder),
{
}

/// Transitions never return to an earlier pipeline state: no status has a
/// path back to `Unconfirmed`, and once a terminal status (`Spent`,
/// `Canceled`, `EmergencyVaulted`, `UnvaultEmergencyVaulted`) is reached no
/// transition leaves it.
pub proof fn lemma_transitions_terminal(from: VaultStatus, to: VaultStatus)
    requires
        next_status_ok(from, to),
    ensures
        to != VaultStatus::Unconfirmed,
        from != VaultStatus::Spent,
        from != VaultStatus::Canceled,
        from != VaultStatus::EmergencyVaulted,
        from != VaultStatus::UnvaultEmergencyVaulted,
{
}

} // verus!
