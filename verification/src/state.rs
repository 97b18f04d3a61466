//! The persistent record of a vault, the events of its lifecycle and the
//! errors that end an operation.

use crate::address::Address;
use vstd::prelude::*;

verus! {

/// Seconds that must pass after a deposit before a withdrawal: two days.
pub const LOCK_DURATION: i64 = 172800;

/// The record kept for one user.
#[derive(Clone, Copy, Debug, PartialEq, Eq, Structural)]
pub struct VaultState {
    /// Bump with which the vault's address is rebuilt.
    pub vault_bump: u8,
    /// Bump with which this record's own address is rebuilt.
    pub state_bump: u8,
    /// Unix time of the latest deposit, 0 before the first.
    pub deposit_timestamp: i64,
}

impl VaultState {
    /// The first moment at which a withdrawal is allowed.
    pub open spec fn unlock_time(self) -> int {
        self.deposit_timestamp + LOCK_DURATION
    }

    /// Whether the time lock is still in force at `now`.
    pub fn is_locked(&self, now: i64) -> (r: bool)
        ensures
            r == (now < self.unlock_time()),
    {
        match self.deposit_timestamp.checked_add(LOCK_DURATION) {
            Some(unlock) => now < unlock,
            None => true,
        }
    }
}

/// Why an operation was refused.
#[derive(Clone, Copy, Debug, PartialEq, Eq, Structural)]
pub enum ErrorCode {
    /// The time lock after the latest deposit has not run out.
    WithdrawalTooEarly,
    /// The user did not sign the request.
    Unauthorized,
    /// A supplied address is not the one derived for the user.
    AddressMismatch,
    /// A state record already exists for the user.
    AlreadyInitialized,
    /// No state record exists for the user.
    NotInitialized,
    /// The paying account holds less than the amount to move.
    InsufficientFunds,
    /// The receiving account's balance would pass the largest amount.
    BalanceOverflow,
}

impl ErrorCode {
    /// The message shown for the error.
    pub fn message(&self) -> (r: &'static str)
        ensures
            r@ == self.message_text(),
    {
        match self {
            ErrorCode::WithdrawalTooEarly => "Withdrawal is locked for 2 days after deposit",
            ErrorCode::Unauthorized => "The user did not sign",
            ErrorCode::AddressMismatch => "An address does not match its derivation",
            ErrorCode::AlreadyInitialized => "The vault state already exists",
            ErrorCode::NotInitialized => "The vault state does not exist",
            ErrorCode::InsufficientFunds => "Insufficient funds for the transfer",
            ErrorCode::BalanceOverflow => "The balance would overflow",
        }
    }

    pub open spec fn message_text(self) -> Seq<char> {
        match self {
            ErrorCode::WithdrawalTooEarly => "Withdrawal is locked for 2 days after deposit"@,
            ErrorCode::Unauthorized => "The user did not sign"@,
            ErrorCode::AddressMismatch => "An address does not match its derivation"@,
            ErrorCode::AlreadyInitialized => "The vault state already exists"@,
            ErrorCode::NotInitialized => "The vault state does not exist"@,
            ErrorCode::InsufficientFunds => "Insufficient funds for the transfer"@,
            ErrorCode::BalanceOverflow => "The balance would overflow"@,
        }
    }
}

/// A state record was created for `user`.
#[derive(Clone, Copy, Debug, PartialEq, Eq)]
pub struct InitializeEvent {
    pub user: Address,
}

/// `user` moved `amount` into the vault.
#[derive(Clone, Copy, Debug, PartialEq, Eq)]
pub struct DepositEvent {
    pub user: Address,
    pub amount: u64,
}

/// `user` took `amount` out of the vault.
#[derive(Clone, Copy, Debug, PartialEq, Eq)]
pub struct WithdrawEvent {
    pub user: Address,
    pub amount: u64,
}

/// `user` closed the vault, which paid out `amount`, all it held.
#[derive(Clone, Copy, Debug, PartialEq, Eq)]
pub struct CloseEvent {
    pub user: Address,
    pub amount: u64,
}

} // verus!
