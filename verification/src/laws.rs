//! What holds of the operations taken together.

use crate::accounts::{
    stored_state_address, stored_vault_address, CloseAccount, Initialize, Payment,
};
use crate::address::{state_address, vault_address, Address};
use crate::program::{
    after_close, after_initialize, close_error, deposit_error, initialize_error, withdraw_error,
};
use crate::state::{ErrorCode, LOCK_DURATION};
use vstd::prelude::*;

verus! {

/// Once `initialize` has created a user's record, a second `initialize` on
/// the same accounts is refused as a duplicate, whatever it would cost. The
/// first call leaves the vault's balance alone and records no deposit.
pub proof fn second_initialize_is_refused(
    pre: Initialize,
    state_pda: Option<(Seq<u8>, u8)>,
    vault_pda: Option<(Seq<u8>, u8)>,
    allocation_cost: u64,
    second_cost: u64,
)
    requires
        initialize_error(pre, state_pda, vault_pda, allocation_cost) is None,
    ensures
        initialize_error(
            after_initialize(pre, state_pda, vault_pda, allocation_cost),
            state_pda,
            vault_pda,
            second_cost,
        ) == Some(ErrorCode::AlreadyInitialized),
        after_initialize(pre, state_pda, vault_pda, allocation_cost).vault == pre.vault,
        after_initialize(
            pre,
            state_pda,
            vault_pda,
            allocation_cost,
        ).vault_state.data.unwrap().deposit_timestamp == 0,
{
}

/// A deposit that succeeds adds exactly the amount to the vault, takes
/// exactly the amount from the user, and sets the time of the latest deposit
/// to the time of the call; the bumps stay.
pub proof fn deposit_adds_exactly(
    pre: Payment,
    state_at: Option<Seq<u8>>,
    vault_at: Option<Seq<u8>>,
    amount: u64,
    now: i64,
)
    requires
        deposit_error(pre, state_at, vault_at, amount) is None,
    ensures
        pre.after_deposit(amount, now).vault.lamports == pre.vault.lamports + amount,
        pre.after_deposit(amount, now).user.lamports == pre.user.lamports - amount,
        pre.after_deposit(amount, now).vault_state.data.unwrap().deposit_timestamp == now,
        pre.after_deposit(amount, now).vault_state.data.unwrap().vault_bump
            == pre.vault_state.data.unwrap().vault_bump,
        pre.after_deposit(amount, now).vault_state.data.unwrap().state_bump
            == pre.vault_state.data.unwrap().state_bump,
{
}

/// On accounts that pass validation, a withdrawal before the lock has run
/// out is refused as too early, whatever the amount and the balances.
pub proof fn early_withdrawal_is_refused(
    pre: Payment,
    state_at: Option<Seq<u8>>,
    vault_at: Option<Seq<u8>>,
    amount: u64,
    now: i64,
)
    requires
        pre.accounts_error(state_at, vault_at) is None,
        now < pre.vault_state.data.unwrap().deposit_timestamp + LOCK_DURATION,
    ensures
        withdraw_error(pre, state_at, vault_at, amount, now) == Some(
            ErrorCode::WithdrawalTooEarly,
        ),
{
}

/// On accounts that pass validation, a withdrawal once the lock has run out,
/// of no more than the vault holds and no more than the user's balance can
/// take, succeeds: the vault loses exactly the amount, the user gains it, and
/// the record is as it was.
pub proof fn late_withdrawal_succeeds(
    pre: Payment,
    state_at: Option<Seq<u8>>,
    vault_at: Option<Seq<u8>>,
    amount: u64,
    now: i64,
)
    requires
        pre.accounts_error(state_at, vault_at) is None,
        now >= pre.vault_state.data.unwrap().deposit_timestamp + LOCK_DURATION,
        pre.vault.lamports >= amount,
        pre.user.lamports + amount <= u64::MAX,
    ensures
        withdraw_error(pre, state_at, vault_at, amount, now) is None,
        pre.after_withdraw(amount).vault.lamports == pre.vault.lamports - amount,
        pre.after_withdraw(amount).user.lamports == pre.user.lamports + amount,
        pre.after_withdraw(amount).vault_state == pre.vault_state,
{
}

/// On accounts that pass validation, `close` succeeds at any time, as long as
/// the user's balance can take what it is paid: no clock is asked. The user
/// then holds the vault's whole balance and the refund, the vault is empty
/// and the record is gone.
pub proof fn close_drains_the_vault(
    pre: CloseAccount,
    state_at: Option<Seq<u8>>,
    vault_at: Option<Seq<u8>>,
)
    requires
        pre.accounts_error(state_at, vault_at) is None,
        pre.user.lamports + pre.vault.lamports + pre.vault_state.lamports <= u64::MAX,
    ensures
        close_error(pre, state_at, vault_at) is None,
        after_close(pre).user.lamports == pre.user.lamports + pre.vault.lamports
            + pre.vault_state.lamports,
        after_close(pre).vault.lamports == 0,
        after_close(pre).vault_state.lamports == 0,
        after_close(pre).vault_state.data is None,
        after_close(pre).user.key == pre.user.key,
        after_close(pre).vault_state.key == pre.vault_state.key,
        after_close(pre).vault.key == pre.vault.key,
{
}

/// After a `close` that succeeded, every deposit and every withdrawal on the
/// same accounts is refused because no record exists, whatever addresses are
/// rebuilt, and `initialize` no longer sees a duplicate.
pub proof fn closed_vault_takes_no_payment(
    pre: CloseAccount,
    state_at: Option<Seq<u8>>,
    vault_at: Option<Seq<u8>>,
    later_state_at: Option<Seq<u8>>,
    later_vault_at: Option<Seq<u8>>,
    state_pda: Option<(Seq<u8>, u8)>,
    vault_pda: Option<(Seq<u8>, u8)>,
    amount: u64,
    now: i64,
)
    requires
        close_error(pre, state_at, vault_at) is None,
    ensures
        deposit_error(
            (Payment {
                user: after_close(pre).user,
                vault_state: after_close(pre).vault_state,
                vault: after_close(pre).vault,
            }),
            later_state_at,
            later_vault_at,
            amount,
        ) == Some(ErrorCode::NotInitialized),
        withdraw_error(
            (Payment {
                user: after_close(pre).user,
                vault_state: after_close(pre).vault_state,
                vault: after_close(pre).vault,
            }),
            later_state_at,
            later_vault_at,
            amount,
            now,
        ) == Some(ErrorCode::NotInitialized),
        (Initialize {
            user: after_close(pre).user,
            vault_state: after_close(pre).vault_state,
            vault: after_close(pre).vault,
        }).accounts_error(state_pda, vault_pda) != Some(ErrorCode::AlreadyInitialized),
{
}

/// Two users with the same identity have the same state address under a
/// program, and two state records at the same address have the same vault
/// address: a derivation depends on nothing but the bytes it is given.
pub proof fn derivation_is_deterministic(
    user: Address,
    other_user: Address,
    state: Address,
    other_state: Address,
    program_id: Address,
)
    requires
        user@ == other_user@,
        state@ == other_state@,
    ensures
        state_address(user@, program_id@) == state_address(other_user@, program_id@),
        vault_address(state@, program_id@) == vault_address(other_state@, program_id@),
{
}

/// While the clock does not run backwards, the time of the latest deposit
/// never decreases: a deposit moves it to the time of the call, and a
/// withdrawal leaves it.
pub proof fn deposit_time_never_decreases(pre: Payment, amount: u64, now: i64)
    requires
        pre.vault_state.data is Some,
        now >= pre.vault_state.data.unwrap().deposit_timestamp,
    ensures
        pre.after_deposit(amount, now).vault_state.data.unwrap().deposit_timestamp
            >= pre.vault_state.data.unwrap().deposit_timestamp,
        pre.after_withdraw(amount).vault_state.data.unwrap().deposit_timestamp
            == pre.vault_state.data.unwrap().deposit_timestamp,
{
}

/// A payment that succeeds leaves the vault active: accounts that passed
/// validation before it pass it afterwards against the same rebuilt
/// addresses, and the bumps from which those are rebuilt have not moved.
pub proof fn payments_keep_the_vault_active(
    pre: Payment,
    state_at: Option<Seq<u8>>,
    vault_at: Option<Seq<u8>>,
    program_id: Seq<u8>,
    amount: u64,
    now: i64,
)
    requires
        pre.accounts_error(state_at, vault_at) is None,
    ensures
        pre.after_deposit(amount, now).accounts_error(state_at, vault_at) is None,
        pre.after_withdraw(amount).accounts_error(state_at, vault_at) is None,
        stored_state_address(
            pre.after_deposit(amount, now).user,
            pre.after_deposit(amount, now).vault_state,
            program_id,
        ) == stored_state_address(pre.user, pre.vault_state, program_id),
        stored_vault_address(pre.after_deposit(amount, now).vault_state, program_id)
            == stored_vault_address(pre.vault_state, program_id),
        stored_state_address(
            pre.after_withdraw(amount).user,
            pre.after_withdraw(amount).vault_state,
            program_id,
        ) == stored_state_address(pre.user, pre.vault_state, program_id),
        stored_vault_address(pre.after_withdraw(amount).vault_state, program_id)
            == stored_vault_address(pre.vault_state, program_id),
{
}

/// No operation that succeeds makes or loses funds: what the user, the state
/// account and the vault hold together is the same before and after.
pub proof fn funds_are_conserved(
    opening: Initialize,
    state_pda: Option<(Seq<u8>, u8)>,
    vault_pda: Option<(Seq<u8>, u8)>,
    allocation_cost: u64,
    paying: Payment,
    closing: CloseAccount,
    state_at: Option<Seq<u8>>,
    vault_at: Option<Seq<u8>>,
    amount: u64,
    now: i64,
)
    ensures
        initialize_error(opening, state_pda, vault_pda, allocation_cost) is None ==> ({
            let post = after_initialize(opening, state_pda, vault_pda, allocation_cost);
            post.user.lamports + post.vault_state.lamports + post.vault.lamports
                == opening.user.lamports + opening.vault_state.lamports + opening.vault.lamports
        }),
        deposit_error(paying, state_at, vault_at, amount) is None ==> ({
            let post = paying.after_deposit(amount, now);
            post.user.lamports + post.vault_state.lamports + post.vault.lamports
                == paying.user.lamports + paying.vault_state.lamports + paying.vault.lamports
        }),
        withdraw_error(paying, state_at, vault_at, amount, now) is None ==> ({
            let post = paying.after_withdraw(amount);
            post.user.lamports + post.vault_state.lamports + post.vault.lamports
                == paying.user.lamports + paying.vault_state.lamports + paying.vault.lamports
        }),
        close_error(closing, state_at, vault_at) is None ==> ({
            let post = after_close(closing);
            post.user.lamports + post.vault_state.lamports + post.vault.lamports
                == closing.user.lamports + closing.vault_state.lamports + closing.vault.lamports
        }),
{
}

} // verus!
