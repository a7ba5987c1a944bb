use vstd::prelude::*;
use crate::identity::Identity;

verus! {

/// The singleton record of a deployment: who may withdraw and transfer
/// authority, and how many payments have been received so far.
#[derive(Clone, Copy, Debug)]
pub struct PaymentState {
    pub owner: Identity,
    pub total_payments: u64,
    pub bump: u8,
}

/// The immutable receipt of one payment.
#[derive(Clone, Copy, Debug)]
pub struct PaymentRecord {
    pub payment_id: u64,
    pub payer: Identity,
    pub amount: u64,
    pub timestamp: i64,
    pub bump: u8,
}

/// The typed rejections of the ledger's operations.
#[derive(Clone, Copy, Debug, PartialEq, Eq, Structural)]
pub enum ErrorCode {
    NoFundsToWithdraw,
    InvalidNewOwner,
    AlreadyInitialized,
    CounterOverflow,
    InsufficientFunds,
    Unauthorized,
    AddressDerivationFailed,
}

/// The text shown to a caller whose operation was rejected.
pub open spec fn error_message(e: ErrorCode) -> Seq<char> {
    match e {
        ErrorCode::NoFundsToWithdraw => "No funds available to withdraw"@,
        ErrorCode::InvalidNewOwner => "Invalid new owner address"@,
        ErrorCode::AlreadyInitialized => "The ledger is already initialized"@,
        ErrorCode::CounterOverflow => "The payment counter would overflow"@,
        ErrorCode::InsufficientFunds => "The payer cannot cover the payment"@,
        ErrorCode::Unauthorized => "The caller is not the authority"@,
        ErrorCode::AddressDerivationFailed => "No program address could be derived"@,
    }
}

impl ErrorCode {
    /// The text shown to a caller whose operation was rejected.
    pub fn message(&self) -> (r: &'static str)
        ensures
            r@ == error_message(*self),
    {
        match self {
            ErrorCode::NoFundsToWithdraw => "No funds available to withdraw",
            ErrorCode::InvalidNewOwner => "Invalid new owner address",
            ErrorCode::AlreadyInitialized => "The ledger is already initialized",
            ErrorCode::CounterOverflow => "The payment counter would overflow",
            ErrorCode::InsufficientFunds => "The payer cannot cover the payment",
            ErrorCode::Unauthorized => "The caller is not the authority",
            ErrorCode::AddressDerivationFailed => "No program address could be derived",
        }
    }
}

/// One successful payment, as seen on the state record and its receipt: the
/// counter moves up by exactly one, the authority stays, and the receipt
/// carries the new counter as its id.
pub open spec fn receipt_step(before: PaymentState, after: PaymentState, record: PaymentRecord) -> bool {
    &&& after.total_payments == before.total_payments + 1
    &&& after.owner == before.owner
    &&& after.bump == before.bump
    &&& record.payment_id == after.total_payments
}

/// A movement of the custody vault's balance by what came in and what went out.
pub open spec fn vault_moved(before: u64, after: u64, received: u64, withdrawn: u64) -> bool {
    after == before + received - withdrawn
}

} // verus!
