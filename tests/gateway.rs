use std::str::FromStr;

use anchor_lang::solana_program::pubkey::Pubkey;
use pulsar_payment::{
    complete_payment, derive_gateway_address, initialize, process_payment, update_fee,
    verify_gateway_address, ErrorCode, Gateway, GatewayAccount, Identity, Ledger,
};

const PROGRAM: &str = "AYR12uFA9XcW2XHyqRYfJLD5nhKoNDqHPk8Yrp3uVMf8";

fn program_id() -> Identity {
    Identity::new(Pubkey::from_str(PROGRAM).unwrap().to_bytes())
}

fn who(b: u8) -> Identity {
    Identity::new([b; 32])
}

fn gateway_address(ledger: &Ledger) -> Identity {
    derive_gateway_address(&ledger.program_id).unwrap().0
}

fn fresh(authority: Identity, fee: u64) -> (Ledger, Identity) {
    let mut ledger = Ledger::new(program_id());
    initialize(&mut ledger, authority, fee).unwrap();
    let address = gateway_address(&ledger);
    (ledger, address)
}

fn pay(ledger: &Ledger, gateway: &Identity, user: Identity, amount: u64, nonce: u64) -> Result<u64, ErrorCode> {
    let pending = process_payment(ledger, gateway, user, who(0xB1), who(0x7E), amount, nonce)?;
    let event = complete_payment(&pending, Ok(()), 1_700_000_000)?;
    Ok(event.amount)
}

#[test]
fn derived_address_matches_solana() {
    let program = Pubkey::from_str(PROGRAM).unwrap();
    let (expected, bump) = Pubkey::find_program_address(&[b"gateway"], &program);
    let (address, derived_bump) = derive_gateway_address(&program_id()).unwrap();
    assert_eq!(address, Identity::new(expected.to_bytes()));
    assert_ne!(address, program_id());
    assert_eq!(derived_bump, bump);
}

#[test]
fn bump_reverifies_address() {
    let (address, bump) = derive_gateway_address(&program_id()).unwrap();
    assert!(verify_gateway_address(&program_id(), bump, &address));
    assert!(!verify_gateway_address(&program_id(), bump, &who(9)));
    assert!(!verify_gateway_address(&program_id(), bump.wrapping_sub(1), &address));
}

#[test]
fn identity_equality_compares_all_bytes() {
    let mut bytes = [4u8; 32];
    assert_eq!(Identity::new(bytes), who(4));
    bytes[31] = 5;
    assert_ne!(Identity::new(bytes), who(4));
}

#[test]
fn create_then_load_gives_fee_and_authority() {
    let a = who(0xA1);
    let mut ledger = Ledger::new(program_id());
    let created: Gateway = initialize(&mut ledger, a, 1_000_000).unwrap();
    let (address, bump) = derive_gateway_address(&program_id()).unwrap();
    let loaded = ledger.load(&address).unwrap();
    assert_eq!(loaded.fee, 1_000_000);
    assert_eq!(loaded.authority, a);
    assert_eq!(loaded.bump, bump);
    assert_eq!(created.fee, 1_000_000);
    assert_eq!(ledger.accounts.len(), 1);
}

#[test]
fn zero_fee_is_accepted() {
    let (ledger, address) = fresh(who(0xA1), 0);
    assert_eq!(ledger.load(&address).unwrap().fee, 0);
    assert_eq!(pay(&ledger, &address, who(0xB0), 0, 1), Ok(0));
}

#[test]
fn largest_fee_is_accepted() {
    let (ledger, address) = fresh(who(0xA1), u64::MAX);
    assert_eq!(pay(&ledger, &address, who(0xB0), u64::MAX - 1, 1), Err(ErrorCode::InsufficientPayment));
    assert_eq!(pay(&ledger, &address, who(0xB0), u64::MAX, 1), Ok(u64::MAX));
}

#[test]
fn second_create_fails_already_initialized() {
    let a = who(0xA1);
    let (mut ledger, address) = fresh(a, 5);
    let second = initialize(&mut ledger, who(0xC1), 9);
    assert_eq!(second.unwrap_err(), ErrorCode::AlreadyInitialized);
    let loaded = ledger.load(&address).unwrap();
    assert_eq!(loaded.fee, 5);
    assert_eq!(loaded.authority, a);
    assert_eq!(ledger.accounts.len(), 1);
}

#[test]
fn load_of_missing_record_fails() {
    let ledger = Ledger::new(program_id());
    let address = gateway_address(&ledger);
    assert_eq!(ledger.load(&address).unwrap_err(), ErrorCode::RecordNotFound);
    let (ledger, _) = fresh(who(0xA1), 5);
    assert_eq!(ledger.load(&who(3)).unwrap_err(), ErrorCode::RecordNotFound);
}

#[test]
fn load_rejects_record_whose_bump_does_not_derive_its_address() {
    let (address, bump) = derive_gateway_address(&program_id()).unwrap();
    let mut ledger = Ledger::new(program_id());
    let record = Gateway { authority: who(0xA1), fee: 5, bump: bump.wrapping_sub(1) };
    ledger.accounts.push(GatewayAccount { address, record });
    assert_eq!(ledger.load(&address).unwrap_err(), ErrorCode::AddressMismatch);
    let forged = who(0x55);
    let record = Gateway { authority: who(0xA1), fee: 5, bump };
    ledger.accounts.push(GatewayAccount { address: forged, record });
    assert_eq!(ledger.load(&forged).unwrap_err(), ErrorCode::AddressMismatch);
    assert_eq!(
        process_payment(&ledger, &forged, who(0xB0), who(1), who(2), 10, 0).unwrap_err(),
        ErrorCode::AddressMismatch
    );
}

#[test]
fn payment_below_fee_requests_no_transfer() {
    let (ledger, address) = fresh(who(0xA1), 100);
    let r = process_payment(&ledger, &address, who(0xB0), who(1), who(2), 99, 7);
    assert_eq!(r.unwrap_err(), ErrorCode::InsufficientPayment);
}

#[test]
fn payment_at_fee_requests_exact_transfer_and_one_event() {
    let (ledger, address) = fresh(who(0xA1), 100);
    let user = who(0xB0);
    let pending = process_payment(&ledger, &address, user, who(1), who(2), 250, 42).unwrap();
    assert_eq!(pending.transfer.amount, 250);
    assert_eq!(pending.transfer.from, who(1));
    assert_eq!(pending.transfer.to, who(2));
    assert_eq!(pending.transfer.authority, user);
    let event = complete_payment(&pending, Ok(()), 1_700_000_123).unwrap();
    assert_eq!(event.user, user);
    assert_eq!(event.amount, 250);
    assert_eq!(event.nonce, 42);
    assert_eq!(event.timestamp, 1_700_000_123);
}

#[test]
fn repeated_nonce_is_not_rejected() {
    let (ledger, address) = fresh(who(0xA1), 100);
    assert_eq!(pay(&ledger, &address, who(0xB0), 100, 3), Ok(100));
    assert_eq!(pay(&ledger, &address, who(0xB0), 100, 3), Ok(100));
}

#[test]
fn failed_transfer_is_propagated() {
    let (ledger, address) = fresh(who(0xA1), 100);
    let pending = process_payment(&ledger, &address, who(0xB0), who(1), who(2), 100, 0).unwrap();
    let r = complete_payment(&pending, Err(17), 1_700_000_000);
    assert_eq!(r.unwrap_err(), ErrorCode::TransferFailed(17));
}

#[test]
fn update_fee_by_other_identity_is_unauthorized() {
    let (mut ledger, address) = fresh(who(0xA1), 100);
    assert_eq!(update_fee(&mut ledger, &address, &who(0xC1), 7), Err(ErrorCode::Unauthorized));
    assert_eq!(ledger.load(&address).unwrap().fee, 100);
}

#[test]
fn update_fee_by_authority_is_exact_and_repeatable() {
    let a = who(0xA1);
    let (mut ledger, address) = fresh(a, 100);
    assert_eq!(update_fee(&mut ledger, &address, &a, 7), Ok(()));
    assert_eq!(ledger.load(&address).unwrap().fee, 7);
    assert_eq!(update_fee(&mut ledger, &address, &a, 7), Ok(()));
    let loaded = ledger.load(&address).unwrap();
    assert_eq!(loaded.fee, 7);
    assert_eq!(loaded.authority, a);
}

#[test]
fn update_fee_on_missing_record_fails() {
    let mut ledger = Ledger::new(program_id());
    let address = gateway_address(&ledger);
    assert_eq!(update_fee(&mut ledger, &address, &who(0xA1), 7), Err(ErrorCode::RecordNotFound));
}

#[test]
fn fee_change_scenario() {
    let a = who(0xA1);
    let b = who(0xB0);
    let c = who(0xC1);
    let (mut ledger, address) = fresh(a, 1_000_000);

    let r = process_payment(&ledger, &address, b, who(1), who(2), 500_000, 1);
    assert_eq!(r.unwrap_err(), ErrorCode::InsufficientPayment);

    let pending = process_payment(&ledger, &address, b, who(1), who(2), 1_000_000, 2).unwrap();
    assert_eq!(pending.transfer.amount, 1_000_000);
    assert_eq!(pending.transfer.from, who(1));
    assert_eq!(pending.transfer.to, who(2));
    let event = complete_payment(&pending, Ok(()), 1_700_000_000).unwrap();
    assert_eq!(event.user, b);
    assert_eq!(event.amount, 1_000_000);

    assert_eq!(update_fee(&mut ledger, &address, &c, 2_000_000), Err(ErrorCode::Unauthorized));
    assert_eq!(ledger.load(&address).unwrap().fee, 1_000_000);

    assert_eq!(update_fee(&mut ledger, &address, &a, 2_000_000), Ok(()));
    let r = process_payment(&ledger, &address, b, who(1), who(2), 1_500_000, 3);
    assert_eq!(r.unwrap_err(), ErrorCode::InsufficientPayment);
}
