//! Refunding every player's bet from the vault.
use vstd::prelude::*;
use crate::errors::WagerError;
use crate::pubkey::Pubkey;
use crate::session::{lemma_roster_len, roster, GameSession, SessionView};
use crate::state::GameStatus;
use crate::utils::{
    capped_sum, larger, remaining_accounts_check, safe_add_u64, session_id_is_valid,
    validate_remaining_accounts_against_players, validate_session_id,
};
use crate::instructions::{check_payout_accounts, payout_account_check, TokenAccountState, TokenTransfer};

verus! {

/// Largest bet that may be refunded.
pub const MAX_REFUND_AMOUNT: u64 = 100_000_000_000;

/// The accounts of a refund: the game server, the session, the vault and
/// its token account, and the accounts passed after them (each player's
/// account followed by the player's token account).
pub struct RefundWager {
    pub game_server: Pubkey,
    pub game_session: GameSession,
    pub vault: Pubkey,
    pub vault_token_account: TokenAccountState,
    pub remaining_accounts: Vec<Pubkey>,
}

/// The players to refund and the amount each gets back.
#[derive(Debug)]
pub struct RefundPlan {
    pub players: Vec<Pubkey>,
    pub amount: u64,
}

/// The safety buffer a refund leaves in the vault: 1000 units or a
/// hundredth of the total, whichever is larger.
pub open spec fn refund_buffer(total: u64) -> u64 {
    larger(1000, total / 100)
}

/// The checks of a refund once the session is in `RefundInProgress`:
/// one account pair per joined player, a sane bet, a vault holding every
/// refund plus its buffer, and the pairs in order.
pub open spec fn refund_checks(
    s: SessionView,
    remaining: Seq<Pubkey>,
    vault_balance: u64,
) -> Result<(), WagerError> {
    let players = roster(s.team_a.players, s.team_b.players, s.team_size());
    let total = s.session_bet * players.len();
    if remaining.len() == 0 || remaining.len() % 2 != 0 || remaining.len() != 2 * players.len() {
        Err(WagerError::InvalidRemainingAccounts)
    } else if s.session_bet == 0 || s.session_bet > MAX_REFUND_AMOUNT {
        Err(WagerError::InvalidBetAmount)
    } else if total > u64::MAX {
        Err(WagerError::ArithmeticError)
    } else if vault_balance < capped_sum(total as u64, refund_buffer(total as u64)) {
        Err(WagerError::InsufficientVaultFunds)
    } else {
        remaining_accounts_check(remaining, players)
    }
}

/// The label under which a refund from `status` holds the session lock.
pub open spec fn refund_label(status: GameStatus) -> Seq<char> {
    if status == GameStatus::WaitingForPlayers {
        "refund_from_waiting"@
    } else if status == GameStatus::InProgress {
        "emergency_refund"@
    } else {
        "refund_expired"@
    }
}

/// The outcome of starting a refund: from a waiting, running or expired
/// session the status is swapped to `RefundInProgress` (which keeps the
/// lock held), then the refund is checked.
pub open spec fn refund_start_outcome(
    s: SessionView,
    session_id: Seq<char>,
    remaining: Seq<Pubkey>,
    vault_balance: u64,
    now: i64,
) -> (SessionView, Result<(), WagerError>) {
    if !session_id_is_valid(session_id) {
        (s, Err(WagerError::InvalidSessionId))
    } else if !(s.status == GameStatus::WaitingForPlayers || s.status == GameStatus::InProgress
        || s.status == GameStatus::Expired) {
        (s, Err(WagerError::InvalidGameState))
    } else {
        let (t, c) = s.swapped(s.status, s.nonce, GameStatus::RefundInProgress, Some(refund_label(s.status)), now);
        match c {
            Err(e) => (t, Err(e)),
            Ok(false) => (t, Err(WagerError::ConcurrentOperation)),
            Ok(true) => (t, refund_checks(t, remaining, vault_balance)),
        }
    }
}

/// Starts a refund at time `now`: on success the session is in
/// `RefundInProgress` and the plan names every player to refund, in order.
pub fn refund_wager_handler(accounts: &mut RefundWager, session_id: &str, now: i64) -> (r: Result<RefundPlan, WagerError>)
    requires
        old(accounts).game_session@.window_fits(),
    ensures
        ({
            let (s, o) = refund_start_outcome(
                old(accounts).game_session@,
                session_id@,
                old(accounts).remaining_accounts@,
                old(accounts).vault_token_account.amount,
                now,
            );
            &&& final(accounts).game_session@ == s
            &&& r is Ok <==> o is Ok
            &&& o matches Err(e) ==> r matches Err(f) && e == f
            &&& r matches Ok(plan) ==> plan.players@ == roster(s.team_a.players, s.team_b.players, s.team_size())
                && plan.amount == s.session_bet
        }),
        final(accounts).remaining_accounts@ == old(accounts).remaining_accounts@,
        final(accounts).vault_token_account == old(accounts).vault_token_account,
        final(accounts).vault == old(accounts).vault,
        final(accounts).game_server == old(accounts).game_server,
{
    validate_session_id(session_id)?;
    let current_nonce = accounts.game_session.nonce;
    let success = match accounts.game_session.status {
        GameStatus::WaitingForPlayers => accounts.game_session.compare_and_swap_status(
            GameStatus::WaitingForPlayers,
            current_nonce,
            GameStatus::RefundInProgress,
            Some("refund_from_waiting"),
            now,
        )?,
        GameStatus::InProgress => accounts.game_session.compare_and_swap_status(
            GameStatus::InProgress,
            current_nonce,
            GameStatus::RefundInProgress,
            Some("emergency_refund"),
            now,
        )?,
        GameStatus::Expired => accounts.game_session.compare_and_swap_status(
            GameStatus::Expired,
            current_nonce,
            GameStatus::RefundInProgress,
            Some("refund_expired"),
            now,
        )?,
        _ => {
            return Err(WagerError::InvalidGameState);
        },
    };
    if !success {
        return Err(WagerError::ConcurrentOperation);
    }
    let active_players = accounts.game_session.get_all_players();
    proof {
        lemma_roster_len(
            accounts.game_session@.team_a.players,
            accounts.game_session@.team_b.players,
            accounts.game_session@.team_size(),
        );
    }
    let count = active_players.len();
    let remaining_len = accounts.remaining_accounts.len();
    if remaining_len == 0 {
        return Err(WagerError::InvalidRemainingAccounts);
    }
    if remaining_len % 2 != 0 {
        return Err(WagerError::InvalidRemainingAccounts);
    }
    if remaining_len != count * 2 {
        return Err(WagerError::InvalidRemainingAccounts);
    }
    let refund_amount = accounts.game_session.session_bet;
    if !(refund_amount > 0) {
        return Err(WagerError::InvalidBetAmount);
    }
    if !(refund_amount <= MAX_REFUND_AMOUNT) {
        return Err(WagerError::InvalidBetAmount);
    }
    let mut total_refund: u64 = 0;
    assert(refund_amount * 0 == 0) by (nonlinear_arith);
    for k in 0..count
        invariant
            count <= 10,
            total_refund == refund_amount * k,
            refund_amount <= MAX_REFUND_AMOUNT,
    {
        proof {
            assert(refund_amount * (k + 1) <= MAX_REFUND_AMOUNT * 10) by (nonlinear_arith)
                requires
                    refund_amount <= MAX_REFUND_AMOUNT,
                    k + 1 <= 10,
            ;
            assert(refund_amount * (k + 1) == refund_amount * k + refund_amount) by (nonlinear_arith);
        }
        total_refund = safe_add_u64(total_refund, refund_amount)?;
    }
    assert(total_refund == refund_amount * count);
    let vault_balance = accounts.vault_token_account.amount;
    let min_safety_buffer = 1000u64;
    let percentage_buffer = total_refund / 100;
    let safety_buffer = if min_safety_buffer >= percentage_buffer {
        min_safety_buffer
    } else {
        percentage_buffer
    };
    if !(vault_balance >= total_refund.saturating_add(safety_buffer)) {
        return Err(WagerError::InsufficientVaultFunds);
    }
    validate_remaining_accounts_against_players(accounts.remaining_accounts.as_slice(), active_players.as_slice())?;
    Ok(RefundPlan { players: active_players, amount: refund_amount })
}

/// Checks the account pair of one refunded player and names the transfer
/// to make: `player_account` is the key passed for the player,
/// `token_account` the state of the token account passed after it, and
/// `token_mint` the mint the program accepts.
pub fn refund_transfer(
    plan: &RefundPlan,
    player_account: Pubkey,
    token_account: TokenAccountState,
    player: Pubkey,
    token_mint: Pubkey,
) -> (r: Result<TokenTransfer, WagerError>)
    ensures
        match payout_account_check(player_account, token_account, player, token_mint) {
            Ok(_) => r == Ok::<TokenTransfer, WagerError>(TokenTransfer { counterparty: player, amount: plan.amount }),
            Err(e) => r == Err::<TokenTransfer, WagerError>(e),
        },
{
    check_payout_accounts(player_account, token_account, player, token_mint)?;
    Ok(TokenTransfer { counterparty: player, amount: plan.amount })
}

/// A refund transfer failed at time `now`: the lock is dropped, the
/// session stays in `RefundInProgress`.
pub fn refund_transfer_failed(game_session: &mut GameSession, now: i64)
    ensures
        final(game_session)@ == (SessionView {
            current_operation: None,
            locked: false,
            last_operation: now,
            ..old(game_session)@
        }),
{
    let _ = game_session.mark_refund_failed(now);
}

/// Closes a refund after `refunded` successful transfers at time `now`:
/// every planned player must have been paid, then the session ends
/// cancelled.
pub fn finish_refund(game_session: &mut GameSession, plan: &RefundPlan, refunded: usize, now: i64) -> (r: Result<(), WagerError>)
    ensures
        refunded != plan.players@.len() ==> r == Err::<(), WagerError>(WagerError::IncompleteDistribution)
            && final(game_session)@ == old(game_session)@,
        refunded == plan.players@.len() && old(game_session).status != GameStatus::RefundInProgress
            ==> r == Err::<(), WagerError>(WagerError::InvalidGameState) && final(game_session)@ == old(game_session)@,
        refunded == plan.players@.len() && old(game_session).status == GameStatus::RefundInProgress
            ==> r is Ok && final(game_session)@ == (SessionView {
            current_operation: None,
            locked: false,
            status: GameStatus::Cancelled,
            last_operation: now,
            ..old(game_session)@
        }),
{
    let count = plan.players.len();
    if refunded != count {
        return Err(WagerError::IncompleteDistribution);
    }
    game_session.mark_refund_completed(now)
}

} // verus!
