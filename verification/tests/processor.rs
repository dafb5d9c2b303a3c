use mutualchain::{
    conclude, evaluate, process_instruction, register, ComplianceDecision, Failure, LedgerReply,
    Party, ReasonCode, RegistrationError,
};
use solana_program::pubkey::Pubkey;

fn party(identifier: &str) -> Party {
    Party::new(identifier.to_string())
}

#[test]
fn permitted_transfer_is_registered() {
    let accounts = [party("authorized-insurer-1"), party("client-9")];
    let transfer = process_instruction("policy", &accounts, &[]).unwrap();
    assert_eq!(transfer.initiator().identifier(), "authorized-insurer-1");
    assert_eq!(transfer.recipient().identifier(), "client-9");
    let record = conclude(transfer, LedgerReply::Appended).unwrap();
    assert_eq!(record.initiator(), "authorized-insurer-1");
    assert_eq!(record.recipient(), "client-9");
}

#[test]
fn unauthorized_initiator_is_rejected_without_a_record() {
    let accounts = [party("random-entity"), party("client-9")];
    assert_eq!(
        process_instruction("policy", &accounts, &[]),
        Err(Failure::Denied(ReasonCode::UnauthorizedEntity))
    );
}

#[test]
fn cooperative_identifier_without_licence_is_rejected() {
    let accounts = [party("coop-transport-union"), party("client-9")];
    assert_eq!(
        process_instruction("policy", &accounts, &[]),
        Err(Failure::Denied(ReasonCode::UnauthorizedEntity))
    );
    let accounts = [party("coop-agricola-123"), party("client-9")];
    assert_eq!(
        process_instruction("policy", &accounts, &[]),
        Err(Failure::Denied(ReasonCode::UnauthorizedEntity))
    );
}

#[test]
fn association_identifier_without_licence_is_rejected() {
    let accounts = [party("assoc-benefit-1"), party("client-9")];
    assert_eq!(
        process_instruction("policy", &accounts, &[]),
        Err(Failure::Denied(ReasonCode::UnauthorizedEntity))
    );
}

#[test]
fn invocation_without_accounts_is_malformed() {
    assert_eq!(process_instruction("policy", &[], &[]), Err(Failure::MissingAccount));
}

#[test]
fn invocation_with_one_account_is_malformed() {
    let accounts = [party("authorized-insurer-1")];
    assert_eq!(process_instruction("policy", &accounts, &[]), Err(Failure::MissingAccount));
    let accounts = [party("random-entity")];
    assert_eq!(process_instruction("policy", &accounts, &[]), Err(Failure::MissingAccount));
}

#[test]
fn accounts_after_the_second_are_not_looked_at() {
    let accounts = [party("authorized-insurer-1"), party("client-9"), party("random-entity")];
    let transfer = process_instruction("policy", &accounts, &[]).unwrap();
    assert_eq!(transfer.initiator().identifier(), "authorized-insurer-1");
    assert_eq!(transfer.recipient().identifier(), "client-9");
}

#[test]
fn program_id_and_payload_do_not_change_the_outcome() {
    let accounts = [party("authorized-insurer-1"), party("client-9")];
    let plain = process_instruction("", &accounts, &[]);
    let other = process_instruction("another-program", &accounts, &[1, 2, 3]);
    assert_eq!(plain, other);
    let accounts = [party("random-entity"), party("client-9")];
    let plain = process_instruction("", &accounts, &[]);
    let other = process_instruction("another-program", &accounts, &[255]);
    assert_eq!(plain, other);
}

#[test]
fn ledger_failure_rejects_the_invocation() {
    let accounts = [party("authorized-insurer-1"), party("client-9")];
    let transfer = process_instruction("policy", &accounts, &[]).unwrap();
    assert_eq!(
        conclude(transfer, LedgerReply::Unavailable),
        Err(Failure::Ledger(RegistrationError::LedgerUnavailable))
    );
}

#[test]
fn register_records_both_identifiers() {
    let initiator = party("authorized-insurer-1");
    let recipient = party("client-9");
    assert_eq!(evaluate(&initiator), ComplianceDecision::Permit);
    let record = register(&initiator, &recipient, LedgerReply::Appended).unwrap();
    assert_eq!(record.initiator(), "authorized-insurer-1");
    assert_eq!(record.recipient(), "client-9");
    assert_eq!(record.clone(), record);
}

#[test]
fn register_reports_an_unavailable_ledger() {
    let initiator = party("authorized-insurer-1");
    let recipient = party("client-9");
    assert_eq!(evaluate(&initiator), ComplianceDecision::Permit);
    assert_eq!(
        register(&initiator, &recipient, LedgerReply::Unavailable),
        Err(RegistrationError::LedgerUnavailable)
    );
}

#[test]
fn a_party_keeps_its_identifier() {
    assert_eq!(party("client-9").identifier(), "client-9");
    assert_eq!(party("").identifier(), "");
    assert_eq!(party("client-9").clone(), party("client-9"));
}

#[test]
fn a_party_from_an_address_is_known_by_its_base58_text() {
    let system = Party::from_address(&[0u8; 32]);
    assert_eq!(system.identifier(), "11111111111111111111111111111111");
    let mut key = [0u8; 32];
    for (i, byte) in key.iter_mut().enumerate() {
        *byte = (7 * i + 3) as u8;
    }
    let party = Party::from_address(&key);
    assert_eq!(party.identifier(), Pubkey::new_from_array(key).to_string());
    assert!(party.identifier().len() >= 32);
}

#[test]
fn equal_addresses_give_equal_parties() {
    let key = [9u8; 32];
    assert_eq!(Party::from_address(&key), Party::from_address(&key));
    assert_ne!(Party::from_address(&key), Party::from_address(&[8u8; 32]));
}

#[test]
fn an_address_without_the_licence_marker_is_denied() {
    let initiator = Party::from_address(&[0u8; 32]);
    assert_eq!(
        evaluate(&initiator),
        ComplianceDecision::Deny(ReasonCode::UnauthorizedEntity)
    );
    let accounts = [initiator, Party::from_address(&[1u8; 32])];
    assert_eq!(
        process_instruction("policy", &accounts, &[]),
        Err(Failure::Denied(ReasonCode::UnauthorizedEntity))
    );
}
