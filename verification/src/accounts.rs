//! The accounts that an operation is handed, how they are validated, and what
//! each operation does to them.

use crate::address::{
    address_bytes, derived_bytes, matches_rebuilt, matching_bump, matching_bump_of,
    rebuild_state_address, rebuild_vault_address, state_address_at, vault_address_at, Address,
};
use crate::state::{ErrorCode, VaultState};
use vstd::prelude::*;

verus! {

/// The user's own account: the identity that signs and the balance it holds.
#[derive(Clone, Copy, Debug, PartialEq, Eq)]
pub struct UserAccount {
    pub key: Address,
    pub lamports: u64,
    /// Whether the host saw the user's signature on the request.
    pub is_signer: bool,
}

/// The account at the state address: its allocation, and the record while
/// one exists.
#[derive(Clone, Copy, Debug, PartialEq, Eq)]
pub struct StateAccount {
    pub key: Address,
    /// What was paid to allocate the record.
    pub lamports: u64,
    pub data: Option<VaultState>,
}

/// The vault: nothing but an address and a balance.
#[derive(Clone, Copy, Debug, PartialEq, Eq)]
pub struct VaultAccount {
    pub key: Address,
    pub lamports: u64,
}

/// Why `amount` cannot move between two balances, if it cannot.
pub open spec fn transfer_error(from: u64, to: u64, amount: u64) -> Option<ErrorCode> {
    if from < amount {
        Some(ErrorCode::InsufficientFunds)
    } else if to + amount > u64::MAX {
        Some(ErrorCode::BalanceOverflow)
    } else {
        None
    }
}

/// Moves `amount` from one balance to another and returns both new balances,
/// the paying one first.
pub fn transfer(from: u64, to: u64, amount: u64) -> (r: Result<(u64, u64), ErrorCode>)
    ensures
        match r {
            Ok((rest, sum)) => transfer_error(from, to, amount) is None && rest == from - amount
                && sum == to + amount,
            Err(e) => transfer_error(from, to, amount) == Some(e),
        },
{
    if from < amount {
        return Err(ErrorCode::InsufficientFunds);
    }
    match to.checked_add(amount) {
        Some(sum) => Ok((from - amount, sum)),
        None => Err(ErrorCode::BalanceOverflow),
    }
}

/// Why the accounts of an existing vault are refused, if they are: the user
/// must have signed, the record must exist, and both addresses must be the
/// ones rebuilt from the record's bumps.
pub open spec fn active_accounts_error(
    user: UserAccount,
    vault_state: StateAccount,
    vault: VaultAccount,
    state_at: Option<Seq<u8>>,
    vault_at: Option<Seq<u8>>,
) -> Option<ErrorCode> {
    if !user.is_signer {
        Some(ErrorCode::Unauthorized)
    } else if vault_state.data is None {
        Some(ErrorCode::NotInitialized)
    } else if state_at != Some(vault_state.key@) {
        Some(ErrorCode::AddressMismatch)
    } else if vault_at != Some(vault.key@) {
        Some(ErrorCode::AddressMismatch)
    } else {
        None
    }
}

/// Validates the accounts of an existing vault against the two addresses
/// rebuilt from its record's bumps.
pub fn check_active_accounts(
    user: &UserAccount,
    vault_state: &StateAccount,
    vault: &VaultAccount,
    state_at: Option<Address>,
    vault_at: Option<Address>,
) -> (r: Result<(), ErrorCode>)
    ensures
        match r {
            Ok(_) => active_accounts_error(
                *user,
                *vault_state,
                *vault,
                address_bytes(state_at),
                address_bytes(vault_at),
            ) is None,
            Err(e) => active_accounts_error(
                *user,
                *vault_state,
                *vault,
                address_bytes(state_at),
                address_bytes(vault_at),
            ) == Some(e),
        },
{
    if !user.is_signer {
        Err(ErrorCode::Unauthorized)
    } else if vault_state.data.is_none() {
        Err(ErrorCode::NotInitialized)
    } else if !matches_rebuilt(&vault_state.key, state_at) {
        Err(ErrorCode::AddressMismatch)
    } else if !matches_rebuilt(&vault.key, vault_at) {
        Err(ErrorCode::AddressMismatch)
    } else {
        Ok(())
    }
}

/// The state address rebuilt from the user's identity and the bump that the
/// record stores; `None` without a record.
pub open spec fn stored_state_address(
    user: UserAccount,
    vault_state: StateAccount,
    program_id: Seq<u8>,
) -> Option<Seq<u8>> {
    match vault_state.data {
        Some(record) => state_address_at(user.key@, record.state_bump, program_id),
        None => None,
    }
}

/// The vault address rebuilt from the state account's address and the bump
/// that the record stores; `None` without a record.
pub open spec fn stored_vault_address(vault_state: StateAccount, program_id: Seq<u8>) -> Option<
    Seq<u8>,
> {
    match vault_state.data {
        Some(record) => vault_address_at(vault_state.key@, record.vault_bump, program_id),
        None => None,
    }
}

/// Rebuilds both addresses of an existing vault from the bumps in its record,
/// the state address first.
pub fn rebuild_stored_addresses(
    user: &UserAccount,
    vault_state: &StateAccount,
    program_id: &Address,
) -> (r: (Option<Address>, Option<Address>))
    ensures
        address_bytes(r.0) == stored_state_address(*user, *vault_state, program_id@),
        address_bytes(r.1) == stored_vault_address(*vault_state, program_id@),
{
    match vault_state.data {
        Some(record) => (
            rebuild_state_address(&user.key, record.state_bump, program_id),
            rebuild_vault_address(&vault_state.key, record.vault_bump, program_id),
        ),
        None => (None, None),
    }
}

/// The bumps found while the accounts of `Initialize` were validated.
#[derive(Clone, Copy, Debug, PartialEq, Eq, Structural)]
pub struct InitializeBumps {
    pub vault_state: u8,
    pub vault: u8,
}

/// The accounts of the operation that creates a user's state record.
#[derive(Clone, Copy, Debug, PartialEq, Eq)]
pub struct Initialize {
    pub user: UserAccount,
    pub vault_state: StateAccount,
    pub vault: VaultAccount,
}

impl Initialize {
    /// Why the accounts are refused, if they are, given what was derived for
    /// the state record and for the vault: the user must have signed, the
    /// state account must be at the derived address and hold no record yet,
    /// and the vault must be at the derived address.
    pub open spec fn accounts_error(
        self,
        state_pda: Option<(Seq<u8>, u8)>,
        vault_pda: Option<(Seq<u8>, u8)>,
    ) -> Option<ErrorCode> {
        if !self.user.is_signer {
            Some(ErrorCode::Unauthorized)
        } else if matching_bump_of(self.vault_state.key@, state_pda) is None {
            Some(ErrorCode::AddressMismatch)
        } else if self.vault_state.data is Some {
            Some(ErrorCode::AlreadyInitialized)
        } else if matching_bump_of(self.vault.key@, vault_pda) is None {
            Some(ErrorCode::AddressMismatch)
        } else {
            None
        }
    }

    /// The accounts with a fresh record that stores `bumps`.
    pub open spec fn with_record(self, bumps: InitializeBumps) -> Initialize {
        Initialize {
            vault_state: StateAccount {
                data: Some(
                    VaultState {
                        vault_bump: bumps.vault,
                        state_bump: bumps.vault_state,
                        deposit_timestamp: 0,
                    },
                ),
                ..self.vault_state
            },
            ..self
        }
    }

    /// Validates the accounts against the two derivations and returns the
    /// bumps that were found.
    pub fn validate(
        &self,
        state_pda: Option<(Address, u8)>,
        vault_pda: Option<(Address, u8)>,
    ) -> (r: Result<InitializeBumps, ErrorCode>)
        ensures
            match r {
                Ok(bumps) => self.accounts_error(derived_bytes(state_pda), derived_bytes(vault_pda))
                    is None && Some(bumps.vault_state) == matching_bump_of(
                    self.vault_state.key@,
                    derived_bytes(state_pda),
                ) && Some(bumps.vault) == matching_bump_of(
                    self.vault.key@,
                    derived_bytes(vault_pda),
                ),
                Err(e) => self.accounts_error(derived_bytes(state_pda), derived_bytes(vault_pda))
                    == Some(e),
            },
    {
        if !self.user.is_signer {
            return Err(ErrorCode::Unauthorized);
        }
        let state_bump: u8 = match matching_bump(&self.vault_state.key, state_pda) {
            Some(bump) => bump,
            None => {
                return Err(ErrorCode::AddressMismatch);
            },
        };
        if self.vault_state.data.is_some() {
            return Err(ErrorCode::AlreadyInitialized);
        }
        match matching_bump(&self.vault.key, vault_pda) {
            Some(vault_bump) => Ok(InitializeBumps { vault_state: state_bump, vault: vault_bump }),
            None => Err(ErrorCode::AddressMismatch),
        }
    }

    /// Writes the fresh record: both bumps, and no deposit yet.
    pub fn initialize(&mut self, bumps: &InitializeBumps) -> (r: Result<(), ErrorCode>)
        ensures
            r is Ok,
            *final(self) == old(self).with_record(*bumps),
    {
        self.vault_state.data = Some(
            VaultState {
                vault_bump: bumps.vault,
                state_bump: bumps.vault_state,
                deposit_timestamp: 0,
            },
        );
        Ok(())
    }
}

/// The accounts of a deposit or a withdrawal.
#[derive(Clone, Copy, Debug, PartialEq, Eq)]
pub struct Payment {
    pub user: UserAccount,
    pub vault_state: StateAccount,
    pub vault: VaultAccount,
}

impl Payment {
    /// Why the accounts are refused, if they are, given the two addresses
    /// rebuilt from the record's bumps.
    pub open spec fn accounts_error(
        self,
        state_at: Option<Seq<u8>>,
        vault_at: Option<Seq<u8>>,
    ) -> Option<ErrorCode> {
        active_accounts_error(self.user, self.vault_state, self.vault, state_at, vault_at)
    }

    /// Why a deposit of `amount` fails on validated accounts, if it does.
    pub open spec fn deposit_error(self, amount: u64) -> Option<ErrorCode> {
        if self.vault_state.data is None {
            Some(ErrorCode::NotInitialized)
        } else {
            transfer_error(self.user.lamports, self.vault.lamports, amount)
        }
    }

    /// The accounts after a deposit of `amount` at `now`: the amount has moved
    /// from the user to the vault and the record holds `now`.
    pub open spec fn after_deposit(self, amount: u64, now: i64) -> Payment {
        Payment {
            user: UserAccount { lamports: (self.user.lamports - amount) as u64, ..self.user },
            vault_state: StateAccount {
                data: Some(
                    VaultState { deposit_timestamp: now, ..self.vault_state.data.unwrap() },
                ),
                ..self.vault_state
            },
            vault: VaultAccount { lamports: (self.vault.lamports + amount) as u64, ..self.vault },
        }
    }

    /// Why a withdrawal of `amount` at `now` fails on validated accounts, if
    /// it does: the time lock comes before the balance.
    pub open spec fn withdraw_error(self, amount: u64, now: i64) -> Option<ErrorCode> {
        if self.vault_state.data is None {
            Some(ErrorCode::NotInitialized)
        } else if now < self.vault_state.data.unwrap().unlock_time() {
            Some(ErrorCode::WithdrawalTooEarly)
        } else {
            transfer_error(self.vault.lamports, self.user.lamports, amount)
        }
    }

    /// The accounts after a withdrawal of `amount`: the amount has moved from
    /// the vault to the user and the record is as it was.
    pub open spec fn after_withdraw(self, amount: u64) -> Payment {
        Payment {
            user: UserAccount { lamports: (self.user.lamports + amount) as u64, ..self.user },
            vault_state: self.vault_state,
            vault: VaultAccount { lamports: (self.vault.lamports - amount) as u64, ..self.vault },
        }
    }

    /// Validates the accounts against the two rebuilt addresses.
    pub fn validate(&self, state_at: Option<Address>, vault_at: Option<Address>) -> (r: Result<
        (),
        ErrorCode,
    >)
        ensures
            match r {
                Ok(_) => self.accounts_error(address_bytes(state_at), address_bytes(vault_at))
                    is None,
                Err(e) => self.accounts_error(address_bytes(state_at), address_bytes(vault_at))
                    == Some(e),
            },
    {
        check_active_accounts(&self.user, &self.vault_state, &self.vault, state_at, vault_at)
    }

    /// Moves `amount` from the user to the vault and records `now` as the time
    /// of the latest deposit. On an error nothing changes.
    pub fn deposit(&mut self, amount: u64, now: i64) -> (r: Result<(), ErrorCode>)
        ensures
            match r {
                Ok(_) => old(self).deposit_error(amount) is None && *final(self) == old(
                    self,
                ).after_deposit(amount, now),
                Err(e) => old(self).deposit_error(amount) == Some(e) && *final(self) == *old(self),
            },
    {
        let record = match self.vault_state.data {
            Some(record) => record,
            None => {
                return Err(ErrorCode::NotInitialized);
            },
        };
        match transfer(self.user.lamports, self.vault.lamports, amount) {
            Ok((rest, sum)) => {
                self.user.lamports = rest;
                self.vault.lamports = sum;
                self.vault_state.data = Some(VaultState { deposit_timestamp: now, ..record });
                Ok(())
            },
            Err(e) => Err(e),
        }
    }

    /// Moves `amount` from the vault to the user once the time lock has run
    /// out at `now`. On an error nothing changes.
    pub fn withdraw(&mut self, amount: u64, now: i64) -> (r: Result<(), ErrorCode>)
        ensures
            match r {
                Ok(_) => old(self).withdraw_error(amount, now) is None && *final(self) == old(
                    self,
                ).after_withdraw(amount),
                Err(e) => old(self).withdraw_error(amount, now) == Some(e) && *final(self) == *old(
                    self,
                ),
            },
    {
        let record = match self.vault_state.data {
            Some(record) => record,
            None => {
                return Err(ErrorCode::NotInitialized);
            },
        };
        if record.is_locked(now) {
            return Err(ErrorCode::WithdrawalTooEarly);
        }
        match transfer(self.vault.lamports, self.user.lamports, amount) {
            Ok((rest, sum)) => {
                self.vault.lamports = rest;
                self.user.lamports = sum;
                Ok(())
            },
            Err(e) => Err(e),
        }
    }
}

/// The accounts of the operation that closes a vault.
#[derive(Clone, Copy, Debug, PartialEq, Eq)]
pub struct CloseAccount {
    pub user: UserAccount,
    pub vault_state: StateAccount,
    pub vault: VaultAccount,
}

impl CloseAccount {
    /// Why the accounts are refused, if they are, given the two addresses
    /// rebuilt from the record's bumps.
    pub open spec fn accounts_error(
        self,
        state_at: Option<Seq<u8>>,
        vault_at: Option<Seq<u8>>,
    ) -> Option<ErrorCode> {
        active_accounts_error(self.user, self.vault_state, self.vault, state_at, vault_at)
    }

    /// Why the vault cannot be drained, if it cannot.
    pub open spec fn close_error(self) -> Option<ErrorCode> {
        transfer_error(self.vault.lamports, self.user.lamports, self.vault.lamports)
    }

    /// The accounts after the vault has paid all it held to the user.
    pub open spec fn after_close(self) -> CloseAccount {
        CloseAccount {
            user: UserAccount {
                lamports: (self.user.lamports + self.vault.lamports) as u64,
                ..self.user
            },
            vault_state: self.vault_state,
            vault: VaultAccount { lamports: 0, ..self.vault },
        }
    }

    /// Why the record cannot be deleted, if it cannot.
    pub open spec fn release_error(self) -> Option<ErrorCode> {
        transfer_error(self.vault_state.lamports, self.user.lamports, self.vault_state.lamports)
    }

    /// The accounts after the record is deleted and its allocation refunded.
    pub open spec fn after_release(self) -> CloseAccount {
        CloseAccount {
            user: UserAccount {
                lamports: (self.user.lamports + self.vault_state.lamports) as u64,
                ..self.user
            },
            vault_state: StateAccount { lamports: 0, data: None, ..self.vault_state },
            vault: self.vault,
        }
    }

    /// Validates the accounts against the two rebuilt addresses.
    pub fn validate(&self, state_at: Option<Address>, vault_at: Option<Address>) -> (r: Result<
        (),
        ErrorCode,
    >)
        ensures
            match r {
                Ok(_) => self.accounts_error(address_bytes(state_at), address_bytes(vault_at))
                    is None,
                Err(e) => self.accounts_error(address_bytes(state_at), address_bytes(vault_at))
                    == Some(e),
            },
    {
        check_active_accounts(&self.user, &self.vault_state, &self.vault, state_at, vault_at)
    }

    /// Pays the vault's whole balance to the user, whatever the time lock
    /// says. On an error nothing changes.
    pub fn close(&mut self) -> (r: Result<(), ErrorCode>)
        ensures
            match r {
                Ok(_) => old(self).close_error() is None && *final(self) == old(self).after_close(),
                Err(e) => old(self).close_error() == Some(e) && *final(self) == *old(self),
            },
    {
        match transfer(self.vault.lamports, self.user.lamports, self.vault.lamports) {
            Ok((rest, sum)) => {
                self.vault.lamports = rest;
                self.user.lamports = sum;
                Ok(())
            },
            Err(e) => Err(e),
        }
    }

    /// Deletes the record and refunds what its allocation cost to the user.
    /// On an error nothing changes.
    pub fn release(&mut self) -> (r: Result<(), ErrorCode>)
        ensures
            match r {
                Ok(_) => old(self).release_error() is None && *final(self) == old(
                    self,
                ).after_release(),
                Err(e) => old(self).release_error() == Some(e) && *final(self) == *old(self),
            },
    {
        match transfer(self.vault_state.lamports, self.user.lamports, self.vault_state.lamports) {
            Ok((rest, sum)) => {
                self.vault_state.lamports = rest;
                self.vault_state.data = None;
                self.user.lamports = sum;
                Ok(())
            },
            Err(e) => Err(e),
        }
    }
}

} // verus!
