//! Buying extra spawns during a pay-to-spawn game.
use vstd::prelude::*;
use crate::errors::WagerError;
use crate::pubkey::Pubkey;
use crate::session::{GameSession, SessionView};
use crate::state::{GameStatus, GAME_TIMEOUT_SECONDS};
use crate::team::TeamView;
use crate::utils::{
    capped_sum, larger, session_hash, session_id_is_valid, spawn_count_check,
    validate_bet_amount, validate_session_id, validate_spawn_count, MAX_BET_AMOUNT, MIN_BET_AMOUNT,
};
use crate::instructions::{TokenAccountState, TokenTransfer};

verus! {

/// Spawns one purchase is expected to add.
pub const SPAWN_INCREMENT: u8 = 10;

/// The accounts of a spawn purchase.
pub struct PayToSpawn {
    pub user: Pubkey,
    pub game_server: Pubkey,
    pub game_session: GameSession,
    pub user_token_account: TokenAccountState,
    pub vault: Pubkey,
    pub vault_token_account: TokenAccountState,
}

/// A purchase whose spawns are booked: the slot that received them, its
/// spawn count before, and the payment still to move into the vault.
#[derive(Debug, Clone, Copy, PartialEq, Eq, Structural)]
pub struct SpawnPurchase {
    pub team: u8,
    pub player_index: usize,
    pub original_spawns: u8,
    pub transfer: TokenTransfer,
}

/// The tokens a buyer must keep beyond the price: a tenth of it, at least 1000.
pub open spec fn purchase_buffer(price: u64) -> u64 {
    larger(price / 10, 1000)
}

/// The outcome of a spawn purchase at time `now`, given the session hash
/// the integrity check recomputed.
pub open spec fn spawn_purchase_outcome(
    s: SessionView,
    session_id: Seq<char>,
    user: Pubkey,
    user_token: TokenAccountState,
    vault: Pubkey,
    vault_token: TokenAccountState,
    team: u8,
    token_mint: Pubkey,
    now: i64,
    recomputed_hash: Seq<u8>,
) -> (SessionView, Result<SpawnPurchase, WagerError>) {
    if !session_id_is_valid(session_id) {
        (s, Err(WagerError::InvalidSessionId))
    } else if s.integrity(recomputed_hash) is Err {
        (s, Err(s.integrity(recomputed_hash)->Err_0))
    } else if now - s.created_at > GAME_TIMEOUT_SECONDS {
        (s, Err(WagerError::GameTimeout))
    } else if !(s.status == GameStatus::InProgress && s.game_mode.sells_spawns()) {
        (s, Err(WagerError::InvalidGameState))
    } else if team > 1 {
        (s, Err(WagerError::InvalidTeamSelection))
    } else if user == Pubkey::zero() {
        (s, Err(WagerError::InvalidPlayer))
    } else {
        match s.slot_of(team, user) {
            Err(e) => (s, Err(e)),
            Ok(i) => {
                let current = s.team_of(team).player_spawns[i];
                let price = s.session_bet;
                if spawn_count_check(current, SPAWN_INCREMENT) is Err {
                    (s, Err(spawn_count_check(current, SPAWN_INCREMENT)->Err_0))
                } else if !(MIN_BET_AMOUNT <= price <= MAX_BET_AMOUNT) {
                    (s, Err(WagerError::InvalidBetAmount))
                } else if user_token.amount < price || user_token.amount < capped_sum(price, purchase_buffer(price)) {
                    (s, Err(WagerError::InsufficientFunds))
                } else if user_token.owner != user {
                    (s, Err(WagerError::InvalidPlayerTokenAccount))
                } else if user_token.mint != token_mint {
                    (s, Err(WagerError::InvalidTokenMint))
                } else if !(vault_token.mint == token_mint && vault_token.owner == vault) {
                    (s, Err(WagerError::InvalidPlayerTokenAccount))
                } else {
                    let (t, r) = s.spawns_added(team, i, now);
                    if r is Err {
                        (t, Err(r->Err_0))
                    } else if t.team_of(team).player_spawns[i] != current + SPAWN_INCREMENT {
                        (t, Err(WagerError::GameDataCorruption))
                    } else {
                        (
                            t,
                            Ok(
                                SpawnPurchase {
                                    team: team,
                                    player_index: i as usize,
                                    original_spawns: current,
                                    transfer: TokenTransfer { counterparty: user, amount: price },
                                },
                            ),
                        )
                    }
                }
            },
        }
    }
}

/// Books a spawn purchase by the signing user at time `now`; the caller
/// then moves the price into the vault and reports back with
/// `settle_spawn_purchase` or `revert_spawn_purchase`. `token_mint` is the
/// mint the program accepts. The integrity check compares the stored
/// session hash with the one recomputed from the session's identifier,
/// authority and creation time.
pub fn pay_to_spawn_handler(
    accounts: &mut PayToSpawn,
    session_id: &str,
    team: u8,
    token_mint: Pubkey,
    now: i64,
) -> (r: Result<SpawnPurchase, WagerError>)
    requires
        old(accounts).game_session@.window_fits(),
    ensures
        (final(accounts).game_session@, r) == spawn_purchase_outcome(
                old(accounts).game_session@,
                session_id@,
                old(accounts).user,
                old(accounts).user_token_account,
                old(accounts).vault,
                old(accounts).vault_token_account,
                team,
                token_mint,
                now,
                session_hash(
                    old(accounts).game_session@.session_id,
                    old(accounts).game_session@.authority,
                    old(accounts).game_session@.created_at,
                ),
            ),
        final(accounts).user == old(accounts).user,
        final(accounts).user_token_account == old(accounts).user_token_account,
        final(accounts).vault == old(accounts).vault,
        final(accounts).vault_token_account == old(accounts).vault_token_account,
{
    let ghost start = accounts.game_session@;
    validate_session_id(session_id)?;
    accounts.game_session.validate_integrity()?;
    accounts.game_session.validate_not_expired_safe(now)?;
    if !(accounts.game_session.status.allows_game_operations() && accounts.game_session.is_pay_to_spawn()) {
        return Err(WagerError::InvalidGameState);
    }
    if !(team == 0 || team == 1) {
        return Err(WagerError::InvalidTeamSelection);
    }
    let player_key = accounts.user;
    if !(player_key != Pubkey::default()) {
        return Err(WagerError::InvalidPlayer);
    }
    let player_index = accounts.game_session.get_player_index(team, player_key)?;
    let max_players = accounts.game_session.game_mode.players_per_team();
    if !(player_index < max_players) {
        return Err(WagerError::PlayerIndexOutOfBounds);
    }
    let current_spawns = if team == 0 {
        accounts.game_session.team_a.player_spawns[player_index]
    } else {
        accounts.game_session.team_b.player_spawns[player_index]
    };
    assert(current_spawns == start.team_of(team).player_spawns[player_index as int]);
    validate_spawn_count(current_spawns, SPAWN_INCREMENT)?;
    let session_bet = accounts.game_session.session_bet;
    validate_bet_amount(session_bet)?;
    let user_balance = accounts.user_token_account.amount;
    if !(user_balance >= session_bet) {
        return Err(WagerError::InsufficientFunds);
    }
    let tenth = session_bet / 10;
    let min_buffer = if tenth >= 1000u64 { tenth } else { 1000u64 };
    if !(user_balance >= session_bet.saturating_add(min_buffer)) {
        return Err(WagerError::InsufficientFunds);
    }
    if !(accounts.user_token_account.owner == accounts.user) {
        return Err(WagerError::InvalidPlayerTokenAccount);
    }
    if !(accounts.user_token_account.mint == token_mint) {
        return Err(WagerError::InvalidTokenMint);
    }
    if !(accounts.vault_token_account.mint == token_mint && accounts.vault_token_account.owner == accounts.vault) {
        return Err(WagerError::InvalidPlayerTokenAccount);
    }
    let original_spawns = current_spawns;
    accounts.game_session.add_spawns_safe(team, player_index, now)?;
    let new_spawns = if team == 0 {
        accounts.game_session.team_a.player_spawns[player_index]
    } else {
        accounts.game_session.team_b.player_spawns[player_index]
    };
    assert(new_spawns == accounts.game_session@.team_of(team).player_spawns[player_index as int]);
    if !(new_spawns as u16 == original_spawns as u16 + SPAWN_INCREMENT as u16) {
        return Err(WagerError::GameDataCorruption);
    }
    Ok(SpawnPurchase {
        team,
        player_index,
        original_spawns,
        transfer: TokenTransfer { counterparty: player_key, amount: session_bet },
    })
}

/// The payment for a booked purchase failed: the slot gets its spawn count
/// back (a team number other than 0 or 1 names no slot and changes
/// nothing).
pub fn revert_spawn_purchase(game_session: &mut GameSession, purchase: SpawnPurchase)
    requires
        purchase.team <= 1 ==> purchase.player_index < 5,
    ensures
        purchase.team > 1 ==> final(game_session)@ == old(game_session)@,
        purchase.team <= 1 ==> final(game_session)@ == old(game_session)@.with_team(
            purchase.team,
            TeamView {
                player_spawns: old(game_session)@.team_of(purchase.team).player_spawns.update(
                    purchase.player_index as int,
                    purchase.original_spawns,
                ),
                ..old(game_session)@.team_of(purchase.team)
            },
        ),
{
    if purchase.team == 0 {
        game_session.team_a.player_spawns[purchase.player_index] = purchase.original_spawns;
    } else if purchase.team == 1 {
        game_session.team_b.player_spawns[purchase.player_index] = purchase.original_spawns;
    } else {
        return;
    }
    assert(game_session@ =~= old(game_session)@.with_team(
        purchase.team,
        TeamView {
            player_spawns: old(game_session)@.team_of(purchase.team).player_spawns.update(
                purchase.player_index as int,
                purchase.original_spawns,
            ),
            ..old(game_session)@.team_of(purchase.team)
        },
    ));
}

/// The payment for a booked purchase went through: the vault must have
/// gained and the buyer lost exactly the price (balances read before and
/// after the transfer), then the team's bet total grows by the price.
pub fn settle_spawn_purchase(
    game_session: &mut GameSession,
    purchase: SpawnPurchase,
    vault_before: u64,
    vault_after: u64,
    user_before: u64,
    user_after: u64,
) -> (r: Result<(), WagerError>)
    ensures
        ({
            let price = purchase.transfer.amount;
            let t = old(game_session)@.team_of(purchase.team);
            if vault_before + price > u64::MAX {
                r == Err::<(), WagerError>(WagerError::ArithmeticError) && final(game_session)@ == old(game_session)@
            } else if vault_after != vault_before + price {
                r == Err::<(), WagerError>(WagerError::VaultBalanceMismatch) && final(game_session)@ == old(game_session)@
            } else if user_before < price {
                r == Err::<(), WagerError>(WagerError::ArithmeticError) && final(game_session)@ == old(game_session)@
            } else if user_after != user_before - price {
                r == Err::<(), WagerError>(WagerError::TokenTransferFailed) && final(game_session)@ == old(game_session)@
            } else if purchase.team > 1 {
                r == Err::<(), WagerError>(WagerError::InvalidTeam) && final(game_session)@ == old(game_session)@
            } else if t.total_bet + price > u64::MAX {
                r == Err::<(), WagerError>(WagerError::ArithmeticError) && final(game_session)@ == old(game_session)@
            } else {
                r is Ok && final(game_session)@ == old(game_session)@.with_team(
                    purchase.team,
                    TeamView { total_bet: (t.total_bet + price) as u64, ..t },
                )
            }
        }),
{
    let price = purchase.transfer.amount;
    let expected_vault = match vault_before.checked_add(price) {
        Some(v) => v,
        None => {
            return Err(WagerError::ArithmeticError);
        },
    };
    if !(vault_after == expected_vault) {
        return Err(WagerError::VaultBalanceMismatch);
    }
    let expected_user = match user_before.checked_sub(price) {
        Some(v) => v,
        None => {
            return Err(WagerError::ArithmeticError);
        },
    };
    if !(user_after == expected_user) {
        return Err(WagerError::TokenTransferFailed);
    }
    if purchase.team == 0 {
        game_session.team_a.total_bet = match game_session.team_a.total_bet.checked_add(price) {
            Some(v) => v,
            None => {
                return Err(WagerError::ArithmeticError);
            },
        };
    } else if purchase.team == 1 {
        game_session.team_b.total_bet = match game_session.team_b.total_bet.checked_add(price) {
            Some(v) => v,
            None => {
                return Err(WagerError::ArithmeticError);
            },
        };
    } else {
        return Err(WagerError::InvalidTeam);
    }
    assert(game_session@ =~= old(game_session)@.with_team(
        purchase.team,
        TeamView { total_bet: game_session@.team_of(purchase.team).total_bet, ..old(game_session)@.team_of(purchase.team) },
    ));
    Ok(())
}

} // verus!
