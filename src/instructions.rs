use vstd::prelude::*;
use crate::address::{
    derive_payment_address, derive_state_address, derive_vault_address, payment_seeds,
    program_address, state_seeds, vault_seeds,
};
use crate::identity::{null_identity, Identity};
use crate::state::{receipt_step, vault_moved, ErrorCode, PaymentRecord, PaymentState};

verus! {

/// The accounts that `initialize` touches.
#[derive(Clone, Copy, Debug)]
pub struct Initialize {
    /// Key of the program that derives the ledger's addresses.
    pub program_id: Identity,
    /// The record at the state address, if one already exists there.
    pub payment_state: Option<PaymentState>,
    /// Address of the state record, set by `initialize`.
    pub state_address: Option<Identity>,
    /// Address of the custody vault, set by `initialize`.
    pub vault_address: Option<Identity>,
}

/// The accounts that `receive_payment` touches.
#[derive(Clone, Copy, Debug)]
pub struct ReceivePayment {
    pub program_id: Identity,
    pub payment_state: PaymentState,
    /// The receipt that `receive_payment` creates.
    pub payment_record: Option<PaymentRecord>,
    /// Address of that receipt, set by `receive_payment`.
    pub payment_record_address: Option<Identity>,
    /// Balance of the custody vault.
    pub vault: u64,
    /// The signer who pays.
    pub payer: Identity,
    /// Balance of the payer.
    pub payer_lamports: u64,
    /// Ledger time at which the payment is made.
    pub now: i64,
}

/// The accounts that `withdraw` touches.
#[derive(Clone, Copy, Debug)]
pub struct Withdraw {
    pub payment_state: PaymentState,
    /// Balance of the custody vault.
    pub vault: u64,
    /// The signer, who must be the authority.
    pub owner: Identity,
    /// Balance of the signer.
    pub owner_lamports: u64,
}

/// The accounts that `transfer_ownership` touches.
#[derive(Clone, Copy, Debug)]
pub struct TransferOwnership {
    pub payment_state: PaymentState,
    /// The signer, who must be the authority.
    pub owner: Identity,
}

/// The guard run before a privileged operation: the caller is the authority.
pub fn is_authorized(state: &PaymentState, caller: &Identity) -> (r: bool)
    ensures
        r == (caller@ == state.owner@),
{
    caller.same_as(&state.owner)
}

/// Why a payment into `ctx` is rejected, if it is.
pub open spec fn receive_error(ctx: ReceivePayment, amount: u64) -> Option<ErrorCode> {
    if ctx.payment_state.total_payments == u64::MAX {
        Some(ErrorCode::CounterOverflow)
    } else if program_address(
        payment_seeds((ctx.payment_state.total_payments + 1) as u64),
        ctx.program_id@,
    ) is None {
        Some(ErrorCode::AddressDerivationFailed)
    } else if ctx.payer_lamports < amount {
        Some(ErrorCode::InsufficientFunds)
    } else {
        None
    }
}

/// Records a payment of `amount` from the payer: the counter moves up by one,
/// a receipt with the new counter as its id is created at the address derived
/// from that id, and the amount moves from the payer into the vault. A
/// payment of zero is accepted and recorded like any other. On a rejection
/// nothing changes.
pub fn receive_payment(ctx: &mut ReceivePayment, amount: u64) -> (r: Result<(), ErrorCode>)
    requires
        old(ctx).vault + old(ctx).payer_lamports <= u64::MAX,
    ensures
        r is Err <==> receive_error(*old(ctx), amount) is Some,
        r is Err ==> r == Err::<(), ErrorCode>(receive_error(*old(ctx), amount)->0),
        r is Err ==> *final(ctx) == *old(ctx),
        r is Ok ==> {
            let id = final(ctx).payment_state.total_payments;
            let derived = program_address(payment_seeds(id), old(ctx).program_id@)->0;
            &&& final(ctx).payment_record matches Some(rec)
            &&& receipt_step(old(ctx).payment_state, final(ctx).payment_state, rec)
            &&& rec.payer == old(ctx).payer
            &&& rec.amount == amount
            &&& rec.timestamp == old(ctx).now
            &&& rec.bump == derived.1
            &&& final(ctx).payment_record_address matches Some(a)
            &&& a@ == derived.0
            &&& vault_moved(old(ctx).vault, final(ctx).vault, amount, 0)
            &&& final(ctx).payer_lamports == old(ctx).payer_lamports - amount
            &&& final(ctx).program_id == old(ctx).program_id
            &&& final(ctx).payer == old(ctx).payer
            &&& final(ctx).now == old(ctx).now
        },
{
    let count = ctx.payment_state.total_payments;
    if count == u64::MAX {
        return Err(ErrorCode::CounterOverflow);
    }
    let id: u64 = count + 1;
    let derived = derive_payment_address(id, &ctx.program_id);
    let (address, bump) = match derived {
        Some(found) => found,
        None => {
            return Err(ErrorCode::AddressDerivationFailed);
        },
    };
    if ctx.payer_lamports < amount {
        return Err(ErrorCode::InsufficientFunds);
    }
    ctx.payment_state.total_payments = id;
    ctx.payment_record = Some(
        PaymentRecord { payment_id: id, payer: ctx.payer, amount, timestamp: ctx.now, bump },
    );
    ctx.payment_record_address = Some(address);
    ctx.payer_lamports = ctx.payer_lamports - amount;
    ctx.vault = ctx.vault + amount;
    Ok(())
}

/// Moves the whole vault balance to the authority. Rejected with
/// `Unauthorized` when the signer is not the authority, and otherwise with
/// `NoFundsToWithdraw` when the vault is empty; on a rejection nothing
/// changes.
pub fn withdraw(ctx: &mut Withdraw) -> (r: Result<(), ErrorCode>)
    requires
        old(ctx).vault + old(ctx).owner_lamports <= u64::MAX,
    ensures
        r == Err::<(), ErrorCode>(ErrorCode::Unauthorized) <==> old(ctx).owner@ != old(
            ctx,
        ).payment_state.owner@,
        r == Err::<(), ErrorCode>(ErrorCode::NoFundsToWithdraw) <==> old(ctx).owner@ == old(
            ctx,
        ).payment_state.owner@ && old(ctx).vault == 0,
        r is Ok <==> old(ctx).owner@ == old(ctx).payment_state.owner@ && old(ctx).vault > 0,
        r is Err ==> *final(ctx) == *old(ctx),
        r is Ok ==> {
            &&& final(ctx).vault == 0
            &&& vault_moved(old(ctx).vault, final(ctx).vault, 0, old(ctx).vault)
            &&& final(ctx).owner_lamports == old(ctx).owner_lamports + old(ctx).vault
            &&& final(ctx).payment_state == old(ctx).payment_state
            &&& final(ctx).owner == old(ctx).owner
        },
{
    if !is_authorized(&ctx.payment_state, &ctx.owner) {
        return Err(ErrorCode::Unauthorized);
    }
    let balance = ctx.vault;
    if balance == 0 {
        return Err(ErrorCode::NoFundsToWithdraw);
    }
    ctx.vault = ctx.vault - balance;
    ctx.owner_lamports = ctx.owner_lamports + balance;
    Ok(())
}

/// Why initializing `ctx` is rejected, if it is.
pub open spec fn initialize_error(ctx: Initialize) -> Option<ErrorCode> {
    if ctx.payment_state is Some {
        Some(ErrorCode::AlreadyInitialized)
    } else if program_address(state_seeds(), ctx.program_id@) is None {
        Some(ErrorCode::AddressDerivationFailed)
    } else if program_address(
        vault_seeds((program_address(state_seeds(), ctx.program_id@)->0).0),
        ctx.program_id@,
    ) is None {
        Some(ErrorCode::AddressDerivationFailed)
    } else {
        None
    }
}

/// Creates the state record with `owner` as its authority and a counter of
/// zero, at the address derived from the state tag, and derives the vault's
/// address from the state's. Rejected with `AlreadyInitialized` when a state
/// record exists; on a rejection nothing changes.
pub fn initialize(ctx: &mut Initialize, owner: Identity) -> (r: Result<(), ErrorCode>)
    ensures
        r is Err <==> initialize_error(*old(ctx)) is Some,
        r is Err ==> r == Err::<(), ErrorCode>(initialize_error(*old(ctx))->0),
        r is Err ==> *final(ctx) == *old(ctx),
        r is Ok ==> {
            let state = program_address(state_seeds(), old(ctx).program_id@)->0;
            let vault = program_address(vault_seeds(state.0), old(ctx).program_id@)->0;
            &&& final(ctx).payment_state matches Some(st)
            &&& st.owner == owner
            &&& st.total_payments == 0
            &&& st.bump == state.1
            &&& final(ctx).state_address matches Some(a)
            &&& a@ == state.0
            &&& final(ctx).vault_address matches Some(v)
            &&& v@ == vault.0
            &&& final(ctx).program_id == old(ctx).program_id
        },
{
    if ctx.payment_state.is_some() {
        return Err(ErrorCode::AlreadyInitialized);
    }
    let (state_address, bump) = match derive_state_address(&ctx.program_id) {
        Some(found) => found,
        None => {
            return Err(ErrorCode::AddressDerivationFailed);
        },
    };
    let (vault_address, _) = match derive_vault_address(&state_address, &ctx.program_id) {
        Some(found) => found,
        None => {
            return Err(ErrorCode::AddressDerivationFailed);
        },
    };
    ctx.payment_state = Some(PaymentState { owner, total_payments: 0, bump });
    ctx.state_address = Some(state_address);
    ctx.vault_address = Some(vault_address);
    Ok(())
}

/// Hands the authority to `new_owner`. Rejected with `Unauthorized` when the
/// signer is not the authority, and otherwise with `InvalidNewOwner` when
/// `new_owner` is the null identity; on a rejection nothing changes. The
/// counter and the bump are kept.
pub fn transfer_ownership(ctx: &mut TransferOwnership, new_owner: Identity) -> (r: Result<(), ErrorCode>)
    ensures
        r == Err::<(), ErrorCode>(ErrorCode::Unauthorized) <==> old(ctx).owner@ != old(
            ctx,
        ).payment_state.owner@,
        r == Err::<(), ErrorCode>(ErrorCode::InvalidNewOwner) <==> old(ctx).owner@ == old(
            ctx,
        ).payment_state.owner@ && new_owner@ == null_identity(),
        r is Ok <==> old(ctx).owner@ == old(ctx).payment_state.owner@ && new_owner@
            != null_identity(),
        r is Err ==> *final(ctx) == *old(ctx),
        r is Ok ==> {
            &&& final(ctx).payment_state.owner == new_owner
            &&& final(ctx).payment_state.total_payments == old(ctx).payment_state.total_payments
            &&& final(ctx).payment_state.bump == old(ctx).payment_state.bump
            &&& final(ctx).owner == old(ctx).owner
        },
{
    if !is_authorized(&ctx.payment_state, &ctx.owner) {
        return Err(ErrorCode::Unauthorized);
    }
    if new_owner.is_null() {
        return Err(ErrorCode::InvalidNewOwner);
    }
    ctx.payment_state.owner = new_owner;
    Ok(())
}

} // verus!
