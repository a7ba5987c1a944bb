use anchor_lang::prelude::Pubkey;
use payment_receiver::identity::Identity;
use payment_receiver::instructions::{
    initialize, is_authorized, receive_payment, transfer_ownership, withdraw, Initialize,
    ReceivePayment, TransferOwnership, Withdraw,
};
use payment_receiver::state::{ErrorCode, PaymentState};

fn program() -> Identity {
    Identity::new([7u8; 32])
}

fn key(b: u8) -> Identity {
    Identity::new([b; 32])
}

fn fresh_state(owner: Identity) -> PaymentState {
    let mut ctx = Initialize {
        program_id: program(),
        payment_state: None,
        state_address: None,
        vault_address: None,
    };
    initialize(&mut ctx, owner).unwrap();
    ctx.payment_state.unwrap()
}

fn pay(state: PaymentState, vault: u64, payer: Identity, amount: u64) -> ReceivePayment {
    let mut ctx = ReceivePayment {
        program_id: program(),
        payment_state: state,
        payment_record: None,
        payment_record_address: None,
        vault,
        payer,
        payer_lamports: 1_000,
        now: 1_700_000_000,
    };
    receive_payment(&mut ctx, amount).unwrap();
    ctx
}

#[test]
fn scenario_two_payments_then_withdraw_by_authority() {
    let a = key(1);
    let p = key(2);
    let state = fresh_state(a);
    let mut vault_seen = vec![0u64];
    let first = pay(state, 0, p, 100);
    vault_seen.push(first.vault);
    let second = pay(first.payment_state, first.vault, p, 250);
    vault_seen.push(second.vault);
    let mut w = Withdraw { payment_state: second.payment_state, vault: second.vault, owner: a, owner_lamports: 5 };
    assert_eq!(withdraw(&mut w), Ok(()));
    vault_seen.push(w.vault);
    assert_eq!(vault_seen, vec![0, 100, 350, 0]);
    assert_eq!(w.owner_lamports, 5 + 350);
    assert_eq!(w.payment_state.total_payments, 2);
}

#[test]
fn scenario_payer_cannot_withdraw() {
    let a = key(1);
    let p = key(2);
    let paid = pay(fresh_state(a), 0, p, 100);
    let mut w = Withdraw { payment_state: paid.payment_state, vault: paid.vault, owner: p, owner_lamports: 0 };
    assert_eq!(withdraw(&mut w), Err(ErrorCode::Unauthorized));
    assert_eq!(w.vault, 100);
    assert_eq!(w.owner_lamports, 0);
}

#[test]
fn scenario_transfer_then_old_owner_locked_out() {
    let a = key(1);
    let b = key(3);
    let paid = pay(fresh_state(a), 0, key(2), 40);
    let mut t = TransferOwnership { payment_state: paid.payment_state, owner: a };
    assert_eq!(transfer_ownership(&mut t, b), Ok(()));
    assert!(t.payment_state.owner == b);
    let mut by_a = Withdraw { payment_state: t.payment_state, vault: paid.vault, owner: a, owner_lamports: 0 };
    assert_eq!(withdraw(&mut by_a), Err(ErrorCode::Unauthorized));
    assert_eq!(by_a.vault, 40);
    let mut by_b = Withdraw { payment_state: t.payment_state, vault: paid.vault, owner: b, owner_lamports: 0 };
    assert_eq!(withdraw(&mut by_b), Ok(()));
    assert_eq!(by_b.vault, 0);
    assert_eq!(by_b.owner_lamports, 40);
}

#[test]
fn initialize_installs_owner_with_zero_count_at_derived_addresses() {
    let mut ctx = Initialize { program_id: program(), payment_state: None, state_address: None, vault_address: None };
    assert_eq!(initialize(&mut ctx, key(9)), Ok(()));
    let state = ctx.payment_state.unwrap();
    assert!(state.owner == key(9));
    assert_eq!(state.total_payments, 0);
    let pid = Pubkey::new_from_array([7u8; 32]);
    let (expected_state, bump) = Pubkey::find_program_address(&[b"payment_state"], &pid);
    assert_eq!(state.bump, bump);
    assert_eq!(ctx.state_address.unwrap().bytes, expected_state.to_bytes());
    let (expected_vault, _) = Pubkey::find_program_address(&[b"vault", expected_state.as_ref()], &pid);
    assert_eq!(ctx.vault_address.unwrap().bytes, expected_vault.to_bytes());
    assert!(ctx.vault_address.unwrap() != ctx.state_address.unwrap());
}

#[test]
fn initialize_twice_is_rejected() {
    let existing = fresh_state(key(1));
    let mut ctx = Initialize { program_id: program(), payment_state: Some(existing), state_address: None, vault_address: None };
    assert_eq!(initialize(&mut ctx, key(4)), Err(ErrorCode::AlreadyInitialized));
    assert!(ctx.payment_state.unwrap().owner == key(1));
    assert!(ctx.state_address.is_none());
}

#[test]
fn receive_payment_writes_receipt_at_address_of_its_id() {
    let paid = pay(fresh_state(key(1)), 10, key(2), 75);
    let rec = paid.payment_record.unwrap();
    assert_eq!(rec.payment_id, 1);
    assert!(rec.payer == key(2));
    assert_eq!(rec.amount, 75);
    assert_eq!(rec.timestamp, 1_700_000_000);
    assert_eq!(paid.vault, 85);
    assert_eq!(paid.payer_lamports, 925);
    let pid = Pubkey::new_from_array([7u8; 32]);
    let (expected, bump) = Pubkey::find_program_address(&[b"payment", &1u64.to_le_bytes()], &pid);
    assert_eq!(paid.payment_record_address.unwrap().bytes, expected.to_bytes());
    assert_eq!(rec.bump, bump);
}

#[test]
fn receipts_get_dense_ids_and_distinct_addresses() {
    let mut state = fresh_state(key(1));
    let mut vault = 0u64;
    let mut addresses = Vec::new();
    for n in 1..=5u64 {
        let paid = pay(state, vault, key(2), n);
        assert_eq!(paid.payment_record.unwrap().payment_id, n);
        assert_eq!(paid.payment_state.total_payments, n);
        addresses.push(paid.payment_record_address.unwrap().bytes);
        state = paid.payment_state;
        vault = paid.vault;
    }
    assert_eq!(vault, 1 + 2 + 3 + 4 + 5);
    for i in 0..addresses.len() {
        for j in (i + 1)..addresses.len() {
            assert_ne!(addresses[i], addresses[j]);
        }
    }
}

#[test]
fn zero_payment_is_recorded() {
    let paid = pay(fresh_state(key(1)), 30, key(2), 0);
    assert_eq!(paid.payment_state.total_payments, 1);
    assert_eq!(paid.payment_record.unwrap().amount, 0);
    assert_eq!(paid.vault, 30);
}

#[test]
fn receive_payment_counter_overflow_is_rejected() {
    let mut state = fresh_state(key(1));
    state.total_payments = u64::MAX;
    let mut ctx = ReceivePayment {
        program_id: program(),
        payment_state: state,
        payment_record: None,
        payment_record_address: None,
        vault: 0,
        payer: key(2),
        payer_lamports: 100,
        now: 0,
    };
    assert_eq!(receive_payment(&mut ctx, 10), Err(ErrorCode::CounterOverflow));
    assert_eq!(ctx.payment_state.total_payments, u64::MAX);
    assert!(ctx.payment_record.is_none());
    assert_eq!(ctx.payer_lamports, 100);
}

#[test]
fn receive_payment_insufficient_funds_is_rejected() {
    let mut ctx = ReceivePayment {
        program_id: program(),
        payment_state: fresh_state(key(1)),
        payment_record: None,
        payment_record_address: None,
        vault: 7,
        payer: key(2),
        payer_lamports: 99,
        now: 0,
    };
    assert_eq!(receive_payment(&mut ctx, 100), Err(ErrorCode::InsufficientFunds));
    assert_eq!(ctx.payment_state.total_payments, 0);
    assert_eq!(ctx.vault, 7);
    assert_eq!(ctx.payer_lamports, 99);
    assert!(ctx.payment_record_address.is_none());
}

#[test]
fn withdraw_from_empty_vault_is_rejected() {
    let mut w = Withdraw { payment_state: fresh_state(key(1)), vault: 0, owner: key(1), owner_lamports: 12 };
    assert_eq!(withdraw(&mut w), Err(ErrorCode::NoFundsToWithdraw));
    assert_eq!(w.owner_lamports, 12);
}

#[test]
fn unauthorized_comes_before_empty_vault() {
    let mut w = Withdraw { payment_state: fresh_state(key(1)), vault: 0, owner: key(2), owner_lamports: 0 };
    assert_eq!(withdraw(&mut w), Err(ErrorCode::Unauthorized));
}

#[test]
fn transfer_by_stranger_is_rejected() {
    let mut t = TransferOwnership { payment_state: fresh_state(key(1)), owner: key(2) };
    assert_eq!(transfer_ownership(&mut t, key(2)), Err(ErrorCode::Unauthorized));
    assert!(t.payment_state.owner == key(1));
}

#[test]
fn transfer_to_null_identity_is_rejected() {
    let mut t = TransferOwnership { payment_state: fresh_state(key(1)), owner: key(1) };
    assert_eq!(transfer_ownership(&mut t, Identity::null()), Err(ErrorCode::InvalidNewOwner));
    assert!(t.payment_state.owner == key(1));
}

#[test]
fn transfer_keeps_counter_and_bump() {
    let paid = pay(fresh_state(key(1)), 0, key(2), 5);
    let mut t = TransferOwnership { payment_state: paid.payment_state, owner: key(1) };
    assert_eq!(transfer_ownership(&mut t, key(3)), Ok(()));
    assert_eq!(t.payment_state.total_payments, 1);
    assert_eq!(t.payment_state.bump, paid.payment_state.bump);
}

#[test]
fn guard_accepts_only_the_authority() {
    let state = fresh_state(key(1));
    assert!(is_authorized(&state, &key(1)));
    assert!(!is_authorized(&state, &key(2)));
}

#[test]
fn identity_null_and_equality() {
    assert!(Identity::null().is_null());
    assert!(Identity::new([0u8; 32]).is_null());
    let mut almost = [0u8; 32];
    almost[31] = 1;
    assert!(!Identity::new(almost).is_null());
    assert!(key(4).same_as(&key(4)));
    assert!(!key(4).same_as(&Identity::new(almost)));
}

#[test]
fn error_messages() {
    assert_eq!(ErrorCode::NoFundsToWithdraw.message(), "No funds available to withdraw");
    assert_eq!(ErrorCode::InvalidNewOwner.message(), "Invalid new owner address");
    assert_eq!(ErrorCode::Unauthorized.message(), "The caller is not the authority");
}
