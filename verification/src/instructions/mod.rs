//! The program's instructions. Each handler holds the decisions of one
//! instruction over plain values; reading accounts, the clock and moving
//! tokens is done by the caller, which hands the outcomes back.
pub mod create_game_session;
pub mod distribute_winnings;
pub mod emergency_pause;
pub mod join_user;
pub mod pay_to_spawn;
pub mod record_kill;
pub mod refund_wager;

use vstd::prelude::*;
use crate::errors::WagerError;
use crate::pubkey::Pubkey;

verus! {

/// What the logic reads of an SPL token account.
#[derive(Debug, Clone, Copy, PartialEq, Eq, Structural)]
pub struct TokenAccountState {
    pub mint: Pubkey,
    pub owner: Pubkey,
    pub amount: u64,
}


/// A token movement out of or into the session vault.
#[derive(Debug, Clone, Copy, PartialEq, Eq, Structural)]
pub struct TokenTransfer {
    /// Owner of the token account on the other side of the vault.
    pub counterparty: Pubkey,
    pub amount: u64,
}

/// The check made on a payee's account pair before a transfer out of the
/// vault: the token account must be owned by the payee's account and hold
/// the program's mint, and the payee's account must be the payee.
pub open spec fn payout_account_check(
    player_account: Pubkey,
    token_account: TokenAccountState,
    player: Pubkey,
    token_mint: Pubkey,
) -> Result<(), WagerError> {
    if token_account.owner != player_account {
        Err(WagerError::InvalidPlayerTokenAccount)
    } else if token_account.mint != token_mint {
        Err(WagerError::InvalidTokenMint)
    } else if player_account != player {
        Err(WagerError::InvalidPlayer)
    } else {
        Ok(())
    }
}

/// Checks a payee's account pair: `player_account` is the key passed for
/// the payee, `token_account` the state of the token account passed after
/// it, and `token_mint` the mint the program accepts.
pub fn check_payout_accounts(
    player_account: Pubkey,
    token_account: TokenAccountState,
    player: Pubkey,
    token_mint: Pubkey,
) -> (r: Result<(), WagerError>)
    ensures
        r == payout_account_check(player_account, token_account, player, token_mint),
{
    if !(token_account.owner == player_account) {
        return Err(WagerError::InvalidPlayerTokenAccount);
    }
    if !(token_account.mint == token_mint) {
        return Err(WagerError::InvalidTokenMint);
    }
    if !(player_account == player) {
        return Err(WagerError::InvalidPlayer);
    }
    Ok(())
}

/// The closing check of a series of payouts: every planned transfer was
/// made and together they moved the planned total.
pub fn check_payouts_complete(
    planned_total: u64,
    paid_total: u64,
    planned_count: usize,
    paid_count: usize,
) -> (r: Result<(), WagerError>)
    ensures
        paid_total == planned_total && paid_count == planned_count ==> r == Ok::<(), WagerError>(()),
        !(paid_total == planned_total && paid_count == planned_count) ==> r == Err::<(), WagerError>(
            WagerError::IncompleteDistribution,
        ),
{
    if !(paid_total == planned_total) {
        return Err(WagerError::IncompleteDistribution);
    }
    if !(paid_count == planned_count) {
        return Err(WagerError::IncompleteDistribution);
    }
    Ok(())
}

} // verus!
