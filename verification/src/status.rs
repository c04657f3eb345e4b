//! The lifecycle status of a vault, with its two stable encodings: a numeric
//! code used for persistence and a lowercase string form.

use vstd::prelude::*;
use vstd::string::*;

use crate::text::str_eq;

verus! {

/// The status of a vault, which depends both on the block chain and on the
/// set of pre-signed transactions we hold.
#[derive(Debug, Clone, Copy, PartialEq, Eq, Structural)]
pub enum VaultStatus {
    /// The deposit transaction has less than 6 confirmations
    Unconfirmed,
    /// The deposit transaction has more than 6 confirmations
    Funded,
    /// The emergency transaction is signed
    Secured,
    /// The unvault transaction is signed (implies that the unvault emergency
    /// and the cancel transaction are signed)
    Active,
    /// The unvault transaction has been broadcast
    Unvaulting,
    /// The unvault transaction is confirmed
    Unvaulted,
    /// The cancel transaction has been broadcast
    Canceling,
    /// The cancel transaction is confirmed
    Canceled,
    /// The first emergency transaction has been broadcast
    EmergencyVaulting,
    /// The first emergency transaction is confirmed
    EmergencyVaulted,
    /// The unvault emergency transaction has been broadcast
    UnvaultEmergencyVaulting,
    /// The unvault emergency transaction is confirmed
    UnvaultEmergencyVaulted,
    /// The unvault transaction CSV is expired
    Spendable,
    /// The spend transaction has been broadcast
    Spending,
    /// The spend transaction is confirmed
    Spent,
}

/// The error returned when a persisted status code or string does not denote
/// any status: parsing never coerces an unknown encoding to a default.
#[derive(Debug, Clone, Copy, PartialEq, Eq, Structural)]
pub struct UnknownStatus;

/// The stable integer code of a status, used for persistence.
pub open spec fn status_code(s: VaultStatus) -> u32 {
    match s {
        VaultStatus::Unconfirmed => 0,
        VaultStatus::Funded => 1,
        VaultStatus::Secured => 2,
        VaultStatus::Active => 3,
        VaultStatus::Unvaulting => 4,
        VaultStatus::Unvaulted => 5,
        VaultStatus::Canceling => 6,
        VaultStatus::Canceled => 7,
        VaultStatus::EmergencyVaulting => 8,
        VaultStatus::EmergencyVaulted => 9,
        VaultStatus::UnvaultEmergencyVaulting => 10,
        VaultStatus::UnvaultEmergencyVaulted => 11,
        VaultStatus::Spendable => 12,
        VaultStatus::Spending => 13,
        VaultStatus::Spent => 14,
    }
}

/// The status denoted by a persisted integer code, if any.
pub open spec fn status_of_code(n: u32) -> Option<VaultStatus> {
    if n == 0 {
        Some(VaultStatus::Unconfirmed)
    } else if n == 1 {
        Some(VaultStatus::Funded)
    } else if n == 2 {
        Some(VaultStatus::Secured)
    } else if n == 3 {
        Some(VaultStatus::Active)
    } else if n == 4 {
        Some(VaultStatus::Unvaulting)
    } else if n == 5 {
        Some(VaultStatus::Unvaulted)
    } else if n == 6 {
        Some(VaultStatus::Canceling)
    } else if n == 7 {
        Some(VaultStatus::Canceled)
    } else if n == 8 {
        Some(VaultStatus::EmergencyVaulting)
    } else if n == 9 {
        Some(VaultStatus::EmergencyVaulted)
    } else if n == 10 {
        Some(VaultStatus::UnvaultEmergencyVaulting)
    } else if n == 11 {
        Some(VaultStatus::UnvaultEmergencyVaulted)
    } else if n == 12 {
        Some(VaultStatus::Spendable)
    } else if n == 13 {
        Some(VaultStatus::Spending)
    } else if n == 14 {
        Some(VaultStatus::Spent)
    } else {
        None
    }
}

/// The canonical lowercase string form of a status.
pub open spec fn status_name(s: VaultStatus) -> Seq<char> {
    match s {
        VaultStatus::Unconfirmed => "unconfirmed"@,
        VaultStatus::Funded => "funded"@,
        VaultStatus::Secured => "secured"@,
        VaultStatus::Active => "active"@,
        VaultStatus::Unvaulting => "unvaulting"@,
        VaultStatus::Unvaulted => "unvaulted"@,
        VaultStatus::Canceling => "canceling"@,
        VaultStatus::Canceled => "canceled"@,
        VaultStatus::EmergencyVaulting => "emergencyvaulting"@,
        VaultStatus::EmergencyVaulted => "emergencyvaulted"@,
        VaultStatus::UnvaultEmergencyVaulting => "unvaultermergencyvaulting"@,
        VaultStatus::UnvaultEmergencyVaulted => "unvaultermergencyvaulted"@,
        VaultStatus::Spendable => "spendable"@,
        VaultStatus::Spending => "spending"@,
        VaultStatus::Spent => "spent"@,
    }
}

/// The status denoted by a persisted string, if any.
pub open spec fn status_of_name(n: Seq<char>) -> Option<VaultStatus> {
    if n == "unconfirmed"@ {
        Some(VaultStatus::Unconfirmed)
    } else if n == "funded"@ {
        Some(VaultStatus::Funded)
    } else if n == "secured"@ {
        Some(VaultStatus::Secured)
    } else if n == "active"@ {
        Some(VaultStatus::Active)
    } else if n == "unvaulting"@ {
        Some(VaultStatus::Unvaulting)
    } else if n == "unvaulted"@ {
        Some(VaultStatus::Unvaulted)
    } else if n == "canceling"@ {
        Some(VaultStatus::Canceling)
    } else if n == "canceled"@ {
        Some(VaultStatus::Canceled)
    } else if n == "emergencyvaulting"@ {
        Some(VaultStatus::EmergencyVaulting)
    } else if n == "emergencyvaulted"@ {
        Some(VaultStatus::EmergencyVaulted)
    } else if n == "unvaultermergencyvaulting"@ {
        Some(VaultStatus::UnvaultEmergencyVaulting)
    } else if n == "unvaultermergencyvaulted"@ {
        Some(VaultStatus::UnvaultEmergencyVaulted)
    } else if n == "spendable"@ {
        Some(VaultStatus::Spendable)
    } else if n == "spending"@ {
        Some(VaultStatus::Spending)
    } else if n == "spent"@ {
        Some(VaultStatus::Spent)
    } else {
        None
    }
}

impl VaultStatus {
    /// The stable integer code of this status, used for persistence.
    pub fn to_code(&self) -> (r: u32)
        ensures
            r == status_code(*self),
    {
        match *self {
            VaultStatus::Unconfirmed => 0,
            VaultStatus::Funded => 1,
            VaultStatus::Secured => 2,
            VaultStatus::Active => 3,
            VaultStatus::Unvaulting => 4,
            VaultStatus::Unvaulted => 5,
            VaultStatus::Canceling => 6,
            VaultStatus::Canceled => 7,
            VaultStatus::EmergencyVaulting => 8,
            VaultStatus::EmergencyVaulted => 9,
            VaultStatus::UnvaultEmergencyVaulting => 10,
            VaultStatus::UnvaultEmergencyVaulted => 11,
            VaultStatus::Spendable => 12,
            VaultStatus::Spending => 13,
            VaultStatus::Spent => 14,
        }
    }

    /// Decodes a persisted integer code; an unknown code fails explicitly.
    pub fn from_code(n: u32) -> (r: Result<VaultStatus, UnknownStatus>)
        ensures
            r is Ok <==> status_of_code(n) is Some,
            r is Ok ==> Some(r->Ok_0) == status_of_code(n),
    {
        match n {
            0 => Ok(VaultStatus::Unconfirmed),
            1 => Ok(VaultStatus::Funded),
            2 => Ok(VaultStatus::Secured),
            3 => Ok(VaultStatus::Active),
            4 => Ok(VaultStatus::Unvaulting),
            5 => Ok(VaultStatus::Unvaulted),
            6 => Ok(VaultStatus::Canceling),
            7 => Ok(VaultStatus::Canceled),
            8 => Ok(VaultStatus::EmergencyVaulting),
            9 => Ok(VaultStatus::EmergencyVaulted),
            10 => Ok(VaultStatus::UnvaultEmergencyVaulting),
            11 => Ok(VaultStatus::UnvaultEmergencyVaulted),
            12 => Ok(VaultStatus::Spendable),
            13 => Ok(VaultStatus::Spending),
            14 => Ok(VaultStatus::Spent),
            _ => Err(UnknownStatus),
        }
    }

    /// The canonical lowercase string form of this status.
    pub fn name(&self) -> (r: String)
        ensures
            r@ == status_name(*self),
    {
        match *self {
            VaultStatus::Unconfirmed => String::from_str("unconfirmed"),
            VaultStatus::Funded => String::from_str("funded"),
            VaultStatus::Secured => String::from_str("secured"),
            VaultStatus::Active => String::from_str("active"),
            VaultStatus::Unvaulting => String::from_str("unvaulting"),
            VaultStatus::Unvaulted => String::from_str("unvaulted"),
            VaultStatus::Canceling => String::from_str("canceling"),
            VaultStatus::Canceled => String::from_str("canceled"),
            VaultStatus::EmergencyVaulting => String::from_str("emergencyvaulting"),
            VaultStatus::EmergencyVaulted => String::from_str("emergencyvaulted"),
            VaultStatus::UnvaultEmergencyVaulting => String::from_str("unvaultermergencyvaulting"),
            VaultStatus::UnvaultEmergencyVaulted => String::from_str("unvaultermergencyvaulted"),
            VaultStatus::Spendable => String::from_str("spendable"),
            VaultStatus::Spending => String::from_str("spending"),
            VaultStatus::Spent => String::from_str("spent"),
        }
    }

    /// Parses the canonical string form of a status; an unknown string fails
    /// explicitly.
    pub fn from_name(s: &str) -> (r: Result<VaultStatus, UnknownStatus>)
        ensures
            r is Ok <==> status_of_name(s@) is Some,
            r is Ok ==> Some(r->Ok_0) == status_of_name(s@),
    {
        if str_eq(s, "unconfirmed") {
            Ok(VaultStatus::Unconfirmed)
        } else if str_eq(s, "funded") {
            Ok(VaultStatus::Funded)
        } else if str_eq(s, "secured") {
            Ok(VaultStatus::Secured)
        } else if str_eq(s, "active") {
            Ok(VaultStatus::Active)
        } else if str_eq(s, "unvaulting") {
            Ok(VaultStatus::Unvaulting)
        } else if str_eq(s, "unvaulted") {
            Ok(VaultStatus::Unvaulted)
        } else if str_eq(s, "canceling") {
            Ok(VaultStatus::Canceling)
        } else if str_eq(s, "canceled") {
            Ok(VaultStatus::Canceled)
        } else if str_eq(s, "emergencyvaulting") {
            Ok(VaultStatus::EmergencyVaulting)
        } else if str_eq(s, "emergencyvaulted") {
            Ok(VaultStatus::EmergencyVaulted)
        } else if str_eq(s, "unvaultermergencyvaulting") {
            Ok(VaultStatus::UnvaultEmergencyVaulting)
        } else if str_eq(s, "unvaultermergencyvaulted") {
            Ok(VaultStatus::UnvaultEmergencyVaulted)
        } else if str_eq(s, "spendable") {
            Ok(VaultStatus::Spendable)
        } else if str_eq(s, "spending") {
            Ok(VaultStatus::Spending)
        } else if str_eq(s, "spent") {
            Ok(VaultStatus::Spent)
        } else {
            Err(UnknownStatus)
        }
    }
}

/// Decoding the code of a status yields that status back: the two encodings
/// never drift apart.
pub proof fn lemma_code_round_trip(s: VaultStatus)
    ensures
        status_of_code(status_code(s)) == Some(s),
{
}

/// Parsing the canonical string form of a status yields that status back:
/// the string encoding is lossless.
pub proof fn lemma_name_round_trip(s: VaultStatus)
    ensures
        status_of_name(status_name(s)) == Some(s),
{
    reveal_strlit("unconfirmed");
    reveal_strlit("funded");
    reveal_strlit("secured");
    reveal_strlit("active");
    reveal_strlit("unvaulting");
    reveal_strlit("unvaulted");
    reveal_strlit("canceling");
    reveal_strlit("canceled");
    reveal_strlit("emergencyvaulting");
    reveal_strlit("emergencyvaulted");
    reveal_strlit("unvaultermergencyvaulting");
    reveal_strlit("unvaultermergencyvaulted");
    reveal_strlit("spendable");
    reveal_strlit("spending");
    reveal_strlit("spent");
    assert("unconfirmed"@.len() == 11);
    assert("funded"@.len() == 6);
    assert("secured"@.len() == 7);
    assert("active"@.len() == 6);
    assert("unvaulting"@.len() == 10);
    assert("unvaulted"@.len() == 9);
    assert("canceling"@.len() == 9);
    assert("canceled"@.len() == 8);
    assert("emergencyvaulting"@.len() == 17);
    assert("emergencyvaulted"@.len() == 16);
    assert("unvaultermergencyvaulting"@.len() == 25);
    assert("unvaultermergencyvaulted"@.len() == 24);
    assert("spendable"@.len() == 9);
    assert("spending"@.len() == 8);
    assert("spent"@.len() == 5);
    assert("funded"@[0] == 'f' && "active"@[0] == 'a');
    assert("unvaulted"@[0] == 'u' && "canceling"@[0] == 'c' && "spendable"@[0] == 's');
    assert("canceled"@[0] == 'c' && "spending"@[0] == 's');
    match s {
        VaultStatus::Unconfirmed => assert(status_of_name(status_name(s)) == Some(s)),
        VaultStatus::Funded => assert(status_of_name(status_name(s)) == Some(s)),
        VaultStatus::Secured => assert(status_of_name(status_name(s)) == Some(s)),
        VaultStatus::Active => assert(status_of_name(status_name(s)) == Some(s)),
        VaultStatus::Unvaulting => assert(status_of_name(status_name(s)) == Some(s)),
        VaultStatus::Unvaulted => assert(status_of_name(status_name(s)) == Some(s)),
        VaultStatus::Canceling => assert(status_of_name(status_name(s)) == Some(s)),
        VaultStatus::Canceled => assert(status_of_name(status_name(s)) == Some(s)),
        VaultStatus::EmergencyVaulting => assert(status_of_name(status_name(s)) == Some(s)),
        VaultStatus::EmergencyVaulted => assert(status_of_name(status_name(s)) == Some(s)),
        VaultStatus::UnvaultEmergencyVaulting => assert(status_of_name(status_name(s)) == Some(
            s,
        )),
        VaultStatus::UnvaultEmergencyVaulted => assert(status_of_name(status_name(s)) == Some(s)),
        VaultStatus::Spendable => assert(status_of_name(status_name(s)) == Some(s)),
        VaultStatus::Spending => assert(status_of_name(status_name(s)) == Some(s)),
        VaultStatus::Spent => assert(status_of_name(status_name(s)) == Some(s)),
    }
}

} // verus!
