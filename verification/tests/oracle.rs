use nft_market_hours::oracle::{ExternalValidationResult, Oracle, OracleValidation};

const MONDAY: i64 = 1_704_067_200;

fn open_validation() -> OracleValidation {
    OracleValidation::V1 {
        transfer: ExternalValidationResult::Approved,
        create: ExternalValidationResult::Pass,
        update: ExternalValidationResult::Pass,
        burn: ExternalValidationResult::Pass,
    }
}

fn closed_validation() -> OracleValidation {
    OracleValidation::V1 {
        transfer: ExternalValidationResult::Rejected,
        create: ExternalValidationResult::Pass,
        update: ExternalValidationResult::Pass,
        burn: ExternalValidationResult::Pass,
    }
}

#[test]
fn validation_approves_transfers_while_the_market_is_open() {
    assert_eq!(OracleValidation::at(MONDAY + 52_200), open_validation());
    assert_eq!(OracleValidation::at(MONDAY + 75_599), open_validation());
}

#[test]
fn validation_rejects_transfers_while_the_market_is_closed() {
    assert_eq!(OracleValidation::at(MONDAY), closed_validation());
    assert_eq!(OracleValidation::at(MONDAY + 52_199), closed_validation());
    assert_eq!(OracleValidation::at(MONDAY + 75_600), closed_validation());
    assert_eq!(OracleValidation::at(MONDAY + 5 * 86_400 + 54_000), closed_validation());
}

#[test]
fn validation_approves_on_friday_and_rejects_on_sunday() {
    // Friday 5 and Sunday 7 January 2024, each at 15:00.
    assert_eq!(OracleValidation::at(MONDAY + 4 * 86_400 + 54_000), open_validation());
    assert_eq!(OracleValidation::at(MONDAY + 6 * 86_400 + 54_000), closed_validation());
    // Friday 2 and Sunday 4 January 1970.
    assert_eq!(OracleValidation::at(140_400), open_validation());
    assert_eq!(OracleValidation::at(313_200), closed_validation());
}

#[test]
fn create_update_and_burn_always_pass() {
    for t in [i64::MIN, -1, 0, MONDAY, MONDAY + 52_200, MONDAY + 5 * 86_400, i64::MAX] {
        let OracleValidation::V1 { transfer, create, update, burn } = OracleValidation::at(t);
        assert_ne!(transfer, ExternalValidationResult::Pass);
        assert_eq!(create, ExternalValidationResult::Pass);
        assert_eq!(update, ExternalValidationResult::Pass);
        assert_eq!(burn, ExternalValidationResult::Pass);
    }
}

#[test]
fn only_rejected_forbids() {
    assert!(ExternalValidationResult::Approved.is_permitted());
    assert!(ExternalValidationResult::Pass.is_permitted());
    assert!(!ExternalValidationResult::Rejected.is_permitted());
}

#[test]
fn new_record_reports_the_market_and_keeps_its_bumps() {
    let open = Oracle::new(MONDAY + 52_500, 254, 7);
    assert_eq!(open, Oracle { validation: open_validation(), bump: 254, vault_bump: 7 });
    let closed = Oracle::new(MONDAY + 5 * 86_400 + 54_000, 0, 255);
    assert_eq!(closed, Oracle { validation: closed_validation(), bump: 0, vault_bump: 255 });
}

#[test]
fn refresh_replaces_the_validation_and_keeps_the_bumps() {
    let mut oracle = Oracle::new(MONDAY, 253, 251);
    assert_eq!(oracle.validation, closed_validation());
    oracle.refresh(MONDAY + 60_000);
    assert_eq!(oracle, Oracle { validation: open_validation(), bump: 253, vault_bump: 251 });
    oracle.refresh(MONDAY + 80_000);
    assert_eq!(oracle, Oracle { validation: closed_validation(), bump: 253, vault_bump: 251 });
}

#[test]
fn refresh_overwrites_whatever_the_record_held() {
    let mut oracle = Oracle {
        validation: OracleValidation::V1 {
            transfer: ExternalValidationResult::Pass,
            create: ExternalValidationResult::Rejected,
            update: ExternalValidationResult::Approved,
            burn: ExternalValidationResult::Rejected,
        },
        bump: 1,
        vault_bump: 2,
    };
    oracle.refresh(MONDAY + 60_000);
    assert_eq!(oracle, Oracle { validation: open_validation(), bump: 1, vault_bump: 2 });
}

#[test]
fn refreshing_twice_at_one_time_is_refreshing_once() {
    for t in [MONDAY, MONDAY + 52_500, MONDAY + 5 * 86_400 + 54_000] {
        let mut once = Oracle::new(MONDAY + 60_000, 9, 8);
        once.refresh(t);
        let mut twice = once;
        twice.refresh(t);
        assert_eq!(once, twice);
    }
}
