//! The four operations of a vault's life: initialize, deposit, withdraw and
//! close. Each validates the accounts it is handed, applies the transition
//! and returns the event to publish; on an error the accounts are untouched
//! and there is no event.

use crate::accounts::{
    active_accounts_error, rebuild_stored_addresses, stored_state_address, stored_vault_address, transfer,
    transfer_error, CloseAccount, Initialize, InitializeBumps, Payment, StateAccount, UserAccount,
};
use crate::address::{
    address_bytes, derive_state_address, derive_vault_address, derived_bytes, matching_bump_of,
    state_address, vault_address, Address,
};
use crate::state::{CloseEvent, DepositEvent, ErrorCode, InitializeEvent, WithdrawEvent};
use vstd::prelude::*;

verus! {

/// Why `initialize` fails, if it does: the accounts are refused, or the user
/// cannot pay what the record's allocation costs.
pub open spec fn initialize_error(
    pre: Initialize,
    state_pda: Option<(Seq<u8>, u8)>,
    vault_pda: Option<(Seq<u8>, u8)>,
    allocation_cost: u64,
) -> Option<ErrorCode> {
    match pre.accounts_error(state_pda, vault_pda) {
        Some(e) => Some(e),
        None => transfer_error(pre.user.lamports, pre.vault_state.lamports, allocation_cost),
    }
}

/// The accounts after `initialize`: the user has paid for the allocation and
/// the record holds the two derived bumps and no deposit.
pub open spec fn after_initialize(
    pre: Initialize,
    state_pda: Option<(Seq<u8>, u8)>,
    vault_pda: Option<(Seq<u8>, u8)>,
    allocation_cost: u64,
) -> Initialize {
    Initialize {
        user: UserAccount { lamports: (pre.user.lamports - allocation_cost) as u64, ..pre.user },
        vault_state: StateAccount {
            lamports: (pre.vault_state.lamports + allocation_cost) as u64,
            ..pre.vault_state
        },
        vault: pre.vault,
    }.with_record(
        InitializeBumps {
            vault_state: matching_bump_of(pre.vault_state.key@, state_pda).unwrap(),
            vault: matching_bump_of(pre.vault.key@, vault_pda).unwrap(),
        },
    )
}

/// `initialize` on accounts whose two derivations are already at hand.
pub fn initialize_with(
    ctx: &mut Initialize,
    state_pda: Option<(Address, u8)>,
    vault_pda: Option<(Address, u8)>,
    allocation_cost: u64,
) -> (r: Result<InitializeEvent, ErrorCode>)
    ensures
        match r {
            Ok(event) => initialize_error(
                *old(ctx),
                derived_bytes(state_pda),
                derived_bytes(vault_pda),
                allocation_cost,
            ) is None && *final(ctx) == after_initialize(
                *old(ctx),
                derived_bytes(state_pda),
                derived_bytes(vault_pda),
                allocation_cost,
            ) && event == (InitializeEvent { user: old(ctx).user.key }),
            Err(e) => initialize_error(
                *old(ctx),
                derived_bytes(state_pda),
                derived_bytes(vault_pda),
                allocation_cost,
            ) == Some(e) && *final(ctx) == *old(ctx),
        },
{
    let bumps = match ctx.validate(state_pda, vault_pda) {
        Ok(bumps) => bumps,
        Err(e) => {
            return Err(e);
        },
    };
    match transfer(ctx.user.lamports, ctx.vault_state.lamports, allocation_cost) {
        Ok((rest, sum)) => {
            ctx.user.lamports = rest;
            ctx.vault_state.lamports = sum;
        },
        Err(e) => {
            return Err(e);
        },
    }
    let _ = ctx.initialize(&bumps);
    Ok(InitializeEvent { user: ctx.user.key })
}

/// Creates the state record of `ctx.user` under `program_id`: derives the
/// state address from the user's identity and the vault address from the
/// state account's, validates the accounts against them, takes
/// `allocation_cost` from the user for the record and writes it. The
/// accounts it leaves behind pass the validation of the other operations.
pub fn initialize(ctx: &mut Initialize, program_id: &Address, allocation_cost: u64) -> (r: Result<
    InitializeEvent,
    ErrorCode,
>)
    ensures
        match r {
            Ok(event) => initialize_error(
                *old(ctx),
                state_address(old(ctx).user.key@, program_id@),
                vault_address(old(ctx).vault_state.key@, program_id@),
                allocation_cost,
            ) is None && *final(ctx) == after_initialize(
                *old(ctx),
                state_address(old(ctx).user.key@, program_id@),
                vault_address(old(ctx).vault_state.key@, program_id@),
                allocation_cost,
            ) && event == (InitializeEvent { user: old(ctx).user.key }) && active_accounts_error(
                final(ctx).user,
                final(ctx).vault_state,
                final(ctx).vault,
                stored_state_address(final(ctx).user, final(ctx).vault_state, program_id@),
                stored_vault_address(final(ctx).vault_state, program_id@),
            ) is None,
            Err(e) => initialize_error(
                *old(ctx),
                state_address(old(ctx).user.key@, program_id@),
                vault_address(old(ctx).vault_state.key@, program_id@),
                allocation_cost,
            ) == Some(e) && *final(ctx) == *old(ctx),
        },
{
    let state_pda = derive_state_address(&ctx.user.key, program_id);
    let vault_pda = derive_vault_address(&ctx.vault_state.key, program_id);
    initialize_with(ctx, state_pda, vault_pda, allocation_cost)
}

/// Why `deposit` fails, if it does: the accounts are refused, or the amount
/// cannot move.
pub open spec fn deposit_error(
    pre: Payment,
    state_at: Option<Seq<u8>>,
    vault_at: Option<Seq<u8>>,
    amount: u64,
) -> Option<ErrorCode> {
    match pre.accounts_error(state_at, vault_at) {
        Some(e) => Some(e),
        None => pre.deposit_error(amount),
    }
}

/// `deposit` on accounts whose two rebuilt addresses are already at hand.
pub fn deposit_with(
    ctx: &mut Payment,
    state_at: Option<Address>,
    vault_at: Option<Address>,
    amount: u64,
    now: i64,
) -> (r: Result<DepositEvent, ErrorCode>)
    ensures
        match r {
            Ok(event) => deposit_error(
                *old(ctx),
                address_bytes(state_at),
                address_bytes(vault_at),
                amount,
            ) is None && *final(ctx) == old(ctx).after_deposit(amount, now) && event == (
                DepositEvent { user: old(ctx).user.key, amount }
            ),
            Err(e) => deposit_error(
                *old(ctx),
                address_bytes(state_at),
                address_bytes(vault_at),
                amount,
            ) == Some(e) && *final(ctx) == *old(ctx),
        },
{
    match ctx.validate(state_at, vault_at) {
        Ok(_) => {},
        Err(e) => {
            return Err(e);
        },
    }
    match ctx.deposit(amount, now) {
        Ok(_) => Ok(DepositEvent { user: ctx.user.key, amount }),
        Err(e) => Err(e),
    }
}

/// Moves `amount` from `ctx.user` into the vault at time `now`, after
/// rebuilding both addresses from the record's bumps and validating the
/// accounts against them. An amount of zero is taken like any other:
/// nothing moves and the lock starts again.
pub fn deposit(ctx: &mut Payment, program_id: &Address, amount: u64, now: i64) -> (r: Result<
    DepositEvent,
    ErrorCode,
>)
    ensures
        match r {
            Ok(event) => deposit_error(
                *old(ctx),
                stored_state_address(old(ctx).user, old(ctx).vault_state, program_id@),
                stored_vault_address(old(ctx).vault_state, program_id@),
                amount,
            ) is None && *final(ctx) == old(ctx).after_deposit(amount, now) && event == (
                DepositEvent { user: old(ctx).user.key, amount }
            ),
            Err(e) => deposit_error(
                *old(ctx),
                stored_state_address(old(ctx).user, old(ctx).vault_state, program_id@),
                stored_vault_address(old(ctx).vault_state, program_id@),
                amount,
            ) == Some(e) && *final(ctx) == *old(ctx),
        },
{
    let rebuilt = rebuild_stored_addresses(&ctx.user, &ctx.vault_state, program_id);
    deposit_with(ctx, rebuilt.0, rebuilt.1, amount, now)
}

/// Why `withdraw` fails, if it does: the accounts are refused, the time lock
/// is in force, or the amount cannot move.
pub open spec fn withdraw_error(
    pre: Payment,
    state_at: Option<Seq<u8>>,
    vault_at: Option<Seq<u8>>,
    amount: u64,
    now: i64,
) -> Option<ErrorCode> {
    match pre.accounts_error(state_at, vault_at) {
        Some(e) => Some(e),
        None => pre.withdraw_error(amount, now),
    }
}

/// `withdraw` on accounts whose two rebuilt addresses are already at hand.
pub fn withdraw_with(
    ctx: &mut Payment,
    state_at: Option<Address>,
    vault_at: Option<Address>,
    amount: u64,
    now: i64,
) -> (r: Result<WithdrawEvent, ErrorCode>)
    ensures
        match r {
            Ok(event) => withdraw_error(
                *old(ctx),
                address_bytes(state_at),
                address_bytes(vault_at),
                amount,
                now,
            ) is None && *final(ctx) == old(ctx).after_withdraw(amount) && event == (
                WithdrawEvent { user: old(ctx).user.key, amount }
            ),
            Err(e) => withdraw_error(
                *old(ctx),
                address_bytes(state_at),
                address_bytes(vault_at),
                amount,
                now,
            ) == Some(e) && *final(ctx) == *old(ctx),
        },
{
    match ctx.validate(state_at, vault_at) {
        Ok(_) => {},
        Err(e) => {
            return Err(e);
        },
    }
    match ctx.withdraw(amount, now) {
        Ok(_) => Ok(WithdrawEvent { user: ctx.user.key, amount }),
        Err(e) => Err(e),
    }
}

/// Moves `amount` from the vault to `ctx.user` at time `now`, once two days
/// have passed since the latest deposit, after rebuilding both addresses from
/// the record's bumps and validating the accounts against them.
pub fn withdraw(ctx: &mut Payment, program_id: &Address, amount: u64, now: i64) -> (r: Result<
    WithdrawEvent,
    ErrorCode,
>)
    ensures
        match r {
            Ok(event) => withdraw_error(
                *old(ctx),
                stored_state_address(old(ctx).user, old(ctx).vault_state, program_id@),
                stored_vault_address(old(ctx).vault_state, program_id@),
                amount,
                now,
            ) is None && *final(ctx) == old(ctx).after_withdraw(amount) && event == (
                WithdrawEvent { user: old(ctx).user.key, amount }
            ),
            Err(e) => withdraw_error(
                *old(ctx),
                stored_state_address(old(ctx).user, old(ctx).vault_state, program_id@),
                stored_vault_address(old(ctx).vault_state, program_id@),
                amount,
                now,
            ) == Some(e) && *final(ctx) == *old(ctx),
        },
{
    let rebuilt = rebuild_stored_addresses(&ctx.user, &ctx.vault_state, program_id);
    withdraw_with(ctx, rebuilt.0, rebuilt.1, amount, now)
}

/// Why `close` fails, if it does: the accounts are refused, or the user's
/// balance cannot take the vault's balance and the refund together.
pub open spec fn close_error(
    pre: CloseAccount,
    state_at: Option<Seq<u8>>,
    vault_at: Option<Seq<u8>>,
) -> Option<ErrorCode> {
    match pre.accounts_error(state_at, vault_at) {
        Some(e) => Some(e),
        None => if pre.user.lamports + pre.vault.lamports + pre.vault_state.lamports > u64::MAX {
            Some(ErrorCode::BalanceOverflow)
        } else {
            None
        },
    }
}

/// The accounts after `close`: the vault is empty, the record is gone, and
/// the user holds what both held.
pub open spec fn after_close(pre: CloseAccount) -> CloseAccount {
    pre.after_close().after_release()
}

/// `close` on accounts whose two rebuilt addresses are already at hand.
pub fn close_with(ctx: &mut CloseAccount, state_at: Option<Address>, vault_at: Option<Address>) -> (r:
    Result<CloseEvent, ErrorCode>)
    ensures
        match r {
            Ok(event) => close_error(*old(ctx), address_bytes(state_at), address_bytes(vault_at))
                is None && *final(ctx) == after_close(*old(ctx)) && event == (
                CloseEvent { user: old(ctx).user.key, amount: old(ctx).vault.lamports }
            ),
            Err(e) => close_error(*old(ctx), address_bytes(state_at), address_bytes(vault_at))
                == Some(e) && *final(ctx) == *old(ctx),
        },
{
    match ctx.validate(state_at, vault_at) {
        Ok(_) => {},
        Err(e) => {
            return Err(e);
        },
    }
    let amount: u64 = ctx.vault.lamports;
    let fits = match ctx.user.lamports.checked_add(amount) {
        Some(sum) => sum.checked_add(ctx.vault_state.lamports).is_some(),
        None => false,
    };
    if !fits {
        return Err(ErrorCode::BalanceOverflow);
    }
    match ctx.close() {
        Ok(_) => {},
        Err(e) => {
            return Err(e);
        },
    }
    let _ = ctx.release();
    Ok(CloseEvent { user: ctx.user.key, amount })
}

/// Pays the vault's whole balance to `ctx.user`, deletes the state record and
/// refunds its allocation, whatever the time lock says, after rebuilding both
/// addresses from the record's bumps and validating the accounts against
/// them. The event carries the balance that the vault held.
pub fn close(ctx: &mut CloseAccount, program_id: &Address) -> (r: Result<CloseEvent, ErrorCode>)
    ensures
        match r {
            Ok(event) => close_error(
                *old(ctx),
                stored_state_address(old(ctx).user, old(ctx).vault_state, program_id@),
                stored_vault_address(old(ctx).vault_state, program_id@),
            ) is None && *final(ctx) == after_close(*old(ctx)) && event == (
                CloseEvent { user: old(ctx).user.key, amount: old(ctx).vault.lamports }
            ),
            Err(e) => close_error(
                *old(ctx),
                stored_state_address(old(ctx).user, old(ctx).vault_state, program_id@),
                stored_vault_address(old(ctx).vault_state, program_id@),
            ) == Some(e) && *final(ctx) == *old(ctx),
        },
{
    let rebuilt = rebuild_stored_addresses(&ctx.user, &ctx.vault_state, program_id);
    close_with(ctx, rebuilt.0, rebuilt.1)
}

} // verus!
