use revaultd::status::{UnknownStatus, VaultStatus};

const ALL: [VaultStatus; 15] = [
    VaultStatus::Unconfirmed,
    VaultStatus::Funded,
    VaultStatus::Secured,
    VaultStatus::Active,
    VaultStatus::Unvaulting,
    VaultStatus::Unvaulted,
    VaultStatus::Canceling,
    VaultStatus::Canceled,
    VaultStatus::EmergencyVaulting,
    VaultStatus::EmergencyVaulted,
    VaultStatus::UnvaultEmergencyVaulting,
    VaultStatus::UnvaultEmergencyVaulted,
    VaultStatus::Spendable,
    VaultStatus::Spending,
    VaultStatus::Spent,
];

#[test]
fn status_code_round_trip() {
    for (i, s) in ALL.iter().enumerate() {
        let code = s.to_code();
        assert_eq!(code, i as u32);
        assert_eq!(VaultStatus::from_code(code), Ok(*s));
    }
}

#[test]
fn status_name_round_trip() {
    for s in ALL.iter() {
        let name = s.name();
        assert_eq!(VaultStatus::from_name(&name), Ok(*s));
    }
}

#[test]
fn status_exact_names() {
    assert_eq!(VaultStatus::Unconfirmed.name(), "unconfirmed");
    assert_eq!(VaultStatus::Funded.name(), "funded");
    assert_eq!(VaultStatus::Secured.name(), "secured");
    assert_eq!(VaultStatus::Active.name(), "active");
    assert_eq!(VaultStatus::Unvaulting.name(), "unvaulting");
    assert_eq!(VaultStatus::Unvaulted.name(), "unvaulted");
    assert_eq!(VaultStatus::Canceling.name(), "canceling");
    assert_eq!(VaultStatus::Canceled.name(), "canceled");
    assert_eq!(VaultStatus::EmergencyVaulting.name(), "emergencyvaulting");
    assert_eq!(VaultStatus::EmergencyVaulted.name(), "emergencyvaulted");
    assert_eq!(
        VaultStatus::UnvaultEmergencyVaulting.name(),
        "unvaultermergencyvaulting"
    );
    assert_eq!(
        VaultStatus::UnvaultEmergencyVaulted.name(),
        "unvaultermergencyvaulted"
    );
    assert_eq!(VaultStatus::Spendable.name(), "spendable");
    assert_eq!(VaultStatus::Spending.name(), "spending");
    assert_eq!(VaultStatus::Spent.name(), "spent");
}

#[test]
fn status_unknown_code_fails() {
    assert_eq!(VaultStatus::from_code(15), Err(UnknownStatus));
    assert_eq!(VaultStatus::from_code(42), Err(UnknownStatus));
    assert_eq!(VaultStatus::from_code(u32::MAX), Err(UnknownStatus));
}

#[test]
fn status_unknown_name_fails() {
    assert_eq!(VaultStatus::from_name(""), Err(UnknownStatus));
    assert_eq!(VaultStatus::from_name("unknown"), Err(UnknownStatus));
    assert_eq!(VaultStatus::from_name("Funded"), Err(UnknownStatus));
    assert_eq!(VaultStatus::from_name("fundedd"), Err(UnknownStatus));
    assert_eq!(VaultStatus::from_name("funde"), Err(UnknownStatus));
}
