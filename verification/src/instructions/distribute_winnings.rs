//! Paying out a finished game: by activity in pay-to-spawn games, to the
//! winning team in winner-takes-all games.
use vstd::prelude::*;
use crate::errors::WagerError;
use crate::pubkey::Pubkey;
use crate::session::{lemma_roster_len, roster, GameSession, SessionView};
use crate::state::GameStatus;
use crate::utils::{
    capped_sum, remaining_accounts_check, safe_multiply_and_divide, session_hash,
    session_id_is_valid, validate_remaining_accounts_against_players, validate_session_id,
    vault_margin,
};
use crate::instructions::{TokenAccountState, TokenTransfer};

verus! {

/// Most kills plus spawns that earn a share.
pub const MAX_EARNINGS_MULTIPLIER: u64 = 50;

/// The accounts of a payout: the game server, the session, the vault and
/// its token account, and the keys of the accounts passed after them.
pub struct DistributeWinnings {
    pub game_server: Pubkey,
    pub game_session: GameSession,
    pub vault: Pubkey,
    pub vault_token_account: TokenAccountState,
    pub remaining_accounts: Vec<Pubkey>,
}

/// The payees of `transfers`.
pub open spec fn payees(transfers: Seq<TokenTransfer>) -> Seq<Pubkey> {
    transfers.map_values(|t: TokenTransfer| t.counterparty)
}

/// The pay-to-spawn earnings of `players`, in order: a tenth of the bet
/// per kill or spawn, players without any skipped, refused when a player
/// shows more than `MAX_EARNINGS_MULTIPLIER` or a sum overflows. Yields
/// the transfers and their total.
pub open spec fn earnings_plan(s: SessionView, players: Seq<Pubkey>) -> Result<(Seq<TokenTransfer>, int), WagerError>
    decreases players.len(),
{
    if players.len() == 0 {
        Ok((Seq::empty(), 0))
    } else {
        match earnings_plan(s, players.drop_last()) {
            Err(e) => Err(e),
            Ok((list, total)) => {
                let p = players.last();
                let bet = s.session_bet;
                match s.activity_of(p) {
                    Err(e) => Err(e),
                    Ok(ks) => if ks == 0 {
                        Ok((list, total))
                    } else if ks > MAX_EARNINGS_MULTIPLIER {
                        Err(WagerError::ArithmeticError)
                    } else if bet == 0 || ks * bet > u64::MAX {
                        Err(WagerError::ArithmeticError)
                    } else if bet * MAX_EARNINGS_MULTIPLIER > u64::MAX {
                        Err(WagerError::ArithmeticError)
                    } else if total + (ks * bet) / 10 > u64::MAX {
                        Err(WagerError::ArithmeticError)
                    } else {
                        Ok(
                            (
                                list.push(TokenTransfer { counterparty: p, amount: ((ks * bet) / 10) as u64 }),
                                total + (ks * bet) / 10,
                            ),
                        )
                    },
                }
            },
        }
    }
}

proof fn lemma_earnings_plan_error_sticks(s: SessionView, players: Seq<Pubkey>, k: int)
    requires
        0 <= k <= players.len(),
        earnings_plan(s, players.take(k)) is Err,
    ensures
        earnings_plan(s, players) == earnings_plan(s, players.take(k)),
    decreases players.len() - k,
{
    if k < players.len() {
        assert(players.take(k + 1).drop_last() =~= players.take(k));
        lemma_earnings_plan_error_sticks(s, players, k + 1);
    } else {
        assert(players.take(k) =~= players);
    }
}

proof fn lemma_earnings_plan_total(s: SessionView, players: Seq<Pubkey>)
    ensures
        earnings_plan(s, players) matches Ok((list, total)) ==> 0 <= total <= u64::MAX && list.len() <= players.len(),
    decreases players.len(),
{
    if players.len() > 0 {
        lemma_earnings_plan_total(s, players.drop_last());
    }
}

/// The payout plan of a pay-to-spawn game, checked against the passed
/// accounts and the vault balance.
pub open spec fn pay_spawn_plan(s: SessionView, remaining: Seq<Pubkey>, vault_balance: u64) -> Result<Seq<TokenTransfer>, WagerError> {
    let players = roster(s.team_a.players, s.team_b.players, s.team_size());
    if remaining.len() == 0 || remaining.len() % 2 != 0 {
        Err(WagerError::InvalidRemainingAccounts)
    } else if vault_balance == 0 {
        Err(WagerError::InsufficientVaultFunds)
    } else {
        match earnings_plan(s, players) {
            Err(e) => Err(e),
            Ok((list, total)) => if vault_balance < total || vault_balance < capped_sum(
                total as u64,
                vault_margin(total as u64),
            ) {
                Err(WagerError::InsufficientVaultFunds)
            } else {
                match remaining_accounts_check(remaining, payees(list)) {
                    Err(e) => Err(e),
                    Ok(_) => Ok(list),
                }
            },
        }
    }
}

/// Plans the pay-to-spawn payout of `session`: each player with kills or
/// spawns gets a tenth of the bet per kill or spawn. `remaining` are the
/// keys of the accounts passed (a player then the player's token account,
/// for every payee) and `vault_balance` the vault's tokens.
pub fn plan_pay_spawn_payouts(session: &GameSession, remaining: &Vec<Pubkey>, vault_balance: u64) -> (r: Result<Vec<TokenTransfer>, WagerError>)
    ensures
        match pay_spawn_plan(session@, remaining@, vault_balance) {
            Ok(list) => r matches Ok(v) && v@ == list,
            Err(e) => r matches Err(f) && e == f,
        },
{
    let players = session.get_all_players();
    let ghost s = session@;
    if remaining.len() == 0 {
        return Err(WagerError::InvalidRemainingAccounts);
    }
    if remaining.len() % 2 != 0 {
        return Err(WagerError::InvalidRemainingAccounts);
    }
    if !(vault_balance > 0) {
        return Err(WagerError::InsufficientVaultFunds);
    }
    let bet = session.session_bet;
    let mut total_required: u64 = 0;
    let mut player_earnings: Vec<TokenTransfer> = Vec::new();
    let n = players.len();
    for i in 0..n
        invariant
            n == players@.len(),
            s == session@,
            bet == s.session_bet,
            players@ == roster(s.team_a.players, s.team_b.players, s.team_size()),
            remaining@.len() > 0,
            remaining@.len() % 2 == 0,
            vault_balance > 0,
            earnings_plan(s, players@.take(i as int)) == Ok::<(Seq<TokenTransfer>, int), WagerError>(
                (player_earnings@, total_required as int),
            ),
    {
        let player = players[i];
        proof {
            assert(players@.take(i as int + 1).drop_last() =~= players@.take(i as int));
            assert(players@.take(i as int + 1).last() == player);
        }
        let kills_and_spawns = match session.get_kills_and_spawns(player) {
            Ok(v) => v,
            Err(e) => {
                proof {
                    lemma_earnings_plan_error_sticks(s, players@, i as int + 1);
                }
                return Err(e);
            },
        };
        if kills_and_spawns != 0 {
            let ks = kills_and_spawns as u64;
            if !(ks <= MAX_EARNINGS_MULTIPLIER) {
                proof {
                    lemma_earnings_plan_error_sticks(s, players@, i as int + 1);
                }
                return Err(WagerError::ArithmeticError);
            }
            let earnings = match safe_multiply_and_divide(ks, bet, 10) {
                Ok(v) => v,
                Err(e) => {
                    proof {
                        lemma_earnings_plan_error_sticks(s, players@, i as int + 1);
                    }
                    return Err(e);
                },
            };
            let max_reasonable_earnings = match bet.checked_mul(MAX_EARNINGS_MULTIPLIER) {
                Some(v) => v,
                None => {
                    proof {
                        lemma_earnings_plan_error_sticks(s, players@, i as int + 1);
                    }
                    return Err(WagerError::ArithmeticError);
                },
            };
            proof {
                assert(earnings <= max_reasonable_earnings) by (nonlinear_arith)
                    requires
                        earnings == (ks * bet) / 10,
                        ks <= 50,
                        max_reasonable_earnings == bet * 50,
                ;
            }
            if !(earnings <= max_reasonable_earnings) {
                return Err(WagerError::ArithmeticError);
            }
            if !(total_required <= u64::MAX - earnings) {
                proof {
                    lemma_earnings_plan_error_sticks(s, players@, i as int + 1);
                }
                return Err(WagerError::ArithmeticError);
            }
            total_required = total_required + earnings;
            player_earnings.push(TokenTransfer { counterparty: player, amount: earnings });
        }
    }
    assert(players@.take(n as int) =~= players@);
    if !(vault_balance >= total_required) {
        return Err(WagerError::InsufficientVaultFunds);
    }
    let min_safety_buffer = 1000u64;
    let percentage_buffer = total_required / 1000;
    let safety_buffer = if min_safety_buffer >= percentage_buffer {
        min_safety_buffer
    } else {
        percentage_buffer
    };
    if !(vault_balance >= total_required.saturating_add(safety_buffer)) {
        return Err(WagerError::InsufficientVaultFunds);
    }
    let mut earning_players: Vec<Pubkey> = Vec::new();
    let m = player_earnings.len();
    proof {
        lemma_earnings_plan_total(s, players@);
        lemma_roster_len(s.team_a.players, s.team_b.players, s.team_size());
    }
    for k in 0..m
        invariant
            m == player_earnings@.len(),
            earning_players@ == payees(player_earnings@).take(k as int),
    {
        earning_players.push(player_earnings[k].counterparty);
        assert(earning_players@ =~= payees(player_earnings@).take(k as int + 1));
    }
    assert(earning_players@ =~= payees(player_earnings@));
    validate_remaining_accounts_against_players(remaining.as_slice(), earning_players.as_slice())?;
    Ok(player_earnings)
}

/// The index of the account pair passed for `player`: the first even
/// position holding the player's key, halved.
pub fn payout_pair_index(remaining: &Vec<Pubkey>, player: Pubkey) -> (r: Result<usize, WagerError>)
    ensures
        match r {
            Ok(i) => 2 * i < remaining@.len() && remaining@[2 * i] == player && forall|j: int|
                #![trigger remaining@[2 * j]]
                0 <= j < i ==> remaining@[2 * j] != player,
            Err(e) => e == WagerError::InvalidPlayer && forall|j: int|
                #![trigger remaining@[2 * j]]
                0 <= j && 2 * j < remaining@.len() ==> remaining@[2 * j] != player,
        },
{
    let n = remaining.len();
    let pairs = n / 2 + n % 2;
    let mut k: usize = 0;
    while k < pairs
        invariant
            n == remaining@.len(),
            pairs == n / 2 + n % 2,
            k <= pairs,
            forall|j: int| #![trigger remaining@[2 * j]] 0 <= j < k ==> remaining@[2 * j] != player,
        decreases pairs - k,
    {
        if remaining[2 * k] == player {
            return Ok(k);
        }
        k = k + 1;
    }
    Err(WagerError::InvalidPlayer)
}

/// The outcome of a pay-to-spawn payout request at time `now`, given the
/// session hash the integrity check recomputed: the game moves to
/// `Completed` by compare-and-swap, then the payout is planned.
pub open spec fn pay_spawn_distribution_outcome(
    s: SessionView,
    session_id: Seq<char>,
    remaining: Seq<Pubkey>,
    vault_balance: u64,
    now: i64,
    recomputed_hash: Seq<u8>,
) -> (SessionView, Result<Seq<TokenTransfer>, WagerError>) {
    if !session_id_is_valid(session_id) {
        (s, Err(WagerError::InvalidSessionId))
    } else if s.status != GameStatus::InProgress {
        (s, Err(WagerError::InvalidGameState))
    } else {
        let (t, c) = s.swapped(s.status, s.nonce, GameStatus::Completed, Some("legacy_transition"@), now);
        match c {
            Err(e) => (t, Err(e)),
            Ok(false) => (t, Err(WagerError::ConcurrentOperation)),
            Ok(true) => if t.status != GameStatus::Completed {
                (t, Err(WagerError::InvalidGameState))
            } else if t.nonce != s.nonce + 1 {
                (t, Err(WagerError::ConcurrentOperation))
            } else if t.integrity(recomputed_hash) is Err {
                (t, Err(t.integrity(recomputed_hash)->Err_0))
            } else {
                (t, pay_spawn_plan(t, remaining, vault_balance))
            },
        }
    }
}

/// Starts a pay-to-spawn payout at time `now`. The integrity check
/// compares the stored session hash with the one recomputed from the
/// session's identifier, authority and creation time.
pub fn distribute_pay_spawn_earnings(
    accounts: &mut DistributeWinnings,
    session_id: &str,
    now: i64,
) -> (r: Result<Vec<TokenTransfer>, WagerError>)
    requires
        old(accounts).game_session@.window_fits(),
    ensures
        ({
            let start = old(accounts).game_session@;
            let (s, o) = pay_spawn_distribution_outcome(
                start,
                session_id@,
                old(accounts).remaining_accounts@,
                old(accounts).vault_token_account.amount,
                now,
                session_hash(start.session_id, start.authority, start.created_at),
            );
            &&& final(accounts).game_session@ == s
            &&& match o {
                Ok(list) => r matches Ok(v) && v@ == list,
                Err(e) => r matches Err(f) && e == f,
            }
        }),
        final(accounts).remaining_accounts@ == old(accounts).remaining_accounts@,
        final(accounts).vault_token_account == old(accounts).vault_token_account,
{
    validate_session_id(session_id)?;
    let current_nonce = accounts.game_session.nonce;
    if accounts.game_session.status != GameStatus::InProgress {
        return Err(WagerError::InvalidGameState);
    }
    accounts.game_session.atomic_status_transition(GameStatus::Completed, current_nonce, now)?;
    if accounts.game_session.status != GameStatus::Completed {
        return Err(WagerError::InvalidGameState);
    }
    if current_nonce == u64::MAX || accounts.game_session.nonce != current_nonce + 1 {
        return Err(WagerError::ConcurrentOperation);
    }
    accounts.game_session.validate_integrity()?;
    plan_pay_spawn_payouts(&accounts.game_session, &accounts.remaining_accounts, accounts.vault_token_account.amount)
}

/// The winners and what each receives.
#[derive(Debug)]
pub struct WinnerPlan {
    pub winners: Vec<Pubkey>,
    pub amount: u64,
}

/// The payout plan of a winner-takes-all game: each member of the winning
/// team receives twice the bet, the vault must hold all of it plus its
/// margin, and the passed accounts must name the winners in order.
pub open spec fn winner_plan(
    s: SessionView,
    winning_team: u8,
    remaining: Seq<Pubkey>,
    vault_balance: u64,
) -> Result<(Seq<Pubkey>, u64), WagerError> {
    let n = s.team_size();
    let bet = s.session_bet;
    if winning_team > 1 {
        Err(WagerError::InvalidWinningTeam)
    } else {
        match s.all_filled_strict() {
            Err(e) => Err(e),
            Ok(false) => Err(WagerError::NotAllPlayersJoined),
            Ok(true) => {
                let winners = s.team_of(winning_team).players.take(n);
                if exists|i: int| 0 <= i < n && #[trigger] winners[i] == Pubkey::zero() {
                    Err(WagerError::InvalidPlayer)
                } else if remaining.len() < 2 * n {
                    Err(WagerError::InvalidRemainingAccounts)
                } else if bet * 2 > u64::MAX || bet * 2 * n > u64::MAX {
                    Err(WagerError::ArithmeticError)
                } else if vault_balance < bet * 2 * n || vault_balance < capped_sum(
                    (bet * 2 * n) as u64,
                    vault_margin((bet * 2 * n) as u64),
                ) {
                    Err(WagerError::InsufficientVaultFunds)
                } else if exists|i: int| 0 <= i < n && remaining[2 * i] != #[trigger] winners[i] {
                    Err(WagerError::InvalidWinner)
                } else {
                    Ok((winners, (bet * 2) as u64))
                }
            },
        }
    }
}

/// Plans the winner-takes-all payout of `session` for `winning_team`.
pub fn plan_winner_payouts(
    session: &GameSession,
    winning_team: u8,
    remaining: &Vec<Pubkey>,
    vault_balance: u64,
) -> (r: Result<WinnerPlan, WagerError>)
    ensures
        match winner_plan(session@, winning_team, remaining@, vault_balance) {
            Ok((winners, amount)) => r matches Ok(p) && p.winners@ == winners && p.amount == amount,
            Err(e) => r matches Err(f) && e == f,
        },
{
    let ghost s = session@;
    if !(winning_team == 0 || winning_team == 1) {
        return Err(WagerError::InvalidWinningTeam);
    }
    let players_per_team = session.game_mode.players_per_team();
    let filled = session.check_all_filled_secure()?;
    if !filled {
        return Err(WagerError::NotAllPlayersJoined);
    }
    let team_players = if winning_team == 0 {
        session.team_a.players
    } else {
        session.team_b.players
    };
    assert(team_players@ == s.team_of(winning_team).players);
    let mut winning_players: Vec<Pubkey> = Vec::new();
    for i in 0..players_per_team
        invariant
            players_per_team == s.team_size(),
            players_per_team <= 5,
            team_players@ == s.team_of(winning_team).players,
            winning_players@ == team_players@.take(i as int),
    {
        winning_players.push(team_players[i]);
        assert(winning_players@ =~= team_players@.take(i as int + 1));
    }
    for i in 0..players_per_team
        invariant
            players_per_team == s.team_size(),
            players_per_team <= 5,
            s == session@,
            winning_team <= 1,
            s.all_filled_strict() == Ok::<bool, WagerError>(true),
            winning_players@.len() == players_per_team,
            winning_players@ == s.team_of(winning_team).players.take(players_per_team as int),
            forall|k: int| 0 <= k < i ==> #[trigger] winning_players@[k] != Pubkey::zero(),
    {
        if !(winning_players[i] != Pubkey::default()) {
            assert(s.team_of(winning_team).players.take(players_per_team as int)[i as int] == Pubkey::zero());
            return Err(WagerError::InvalidPlayer);
        }
    }
    if !(remaining.len() >= 2 * players_per_team) {
        return Err(WagerError::InvalidRemainingAccounts);
    }
    let session_bet = session.session_bet;
    let winning_amount = match session_bet.checked_mul(2) {
        Some(v) => v,
        None => {
            return Err(WagerError::ArithmeticError);
        },
    };
    let total_payout = match winning_amount.checked_mul(players_per_team as u64) {
        Some(v) => v,
        None => {
            return Err(WagerError::ArithmeticError);
        },
    };
    if !(vault_balance >= total_payout) {
        return Err(WagerError::InsufficientVaultFunds);
    }
    let min_safety_buffer = 1000u64;
    let percentage_buffer = total_payout / 1000;
    let safety_buffer = if min_safety_buffer >= percentage_buffer {
        min_safety_buffer
    } else {
        percentage_buffer
    };
    if !(vault_balance >= total_payout.saturating_add(safety_buffer)) {
        return Err(WagerError::InsufficientVaultFunds);
    }
    for i in 0..players_per_team
        invariant
            players_per_team == s.team_size(),
            players_per_team <= 5,
            remaining@.len() >= 2 * players_per_team,
            s == session@,
            winning_team <= 1,
            s.all_filled_strict() == Ok::<bool, WagerError>(true),
            winning_players@.len() == players_per_team,
            winning_players@ == s.team_of(winning_team).players.take(players_per_team as int),
            forall|k: int| 0 <= k < players_per_team ==> #[trigger] winning_players@[k] != Pubkey::zero(),
            session_bet == s.session_bet,
            winning_amount == session_bet * 2,
            total_payout == winning_amount * players_per_team,
            vault_balance >= total_payout,
            vault_balance >= capped_sum(total_payout, vault_margin(total_payout)),
            forall|k: int| 0 <= k < i ==> remaining@[2 * k] == #[trigger] winning_players@[k],
    {
        let expected_winner = winning_players[i];
        let provided_account = remaining[i * 2];
        if !(provided_account == expected_winner) {
            assert(remaining@[2 * i] != s.team_of(winning_team).players.take(players_per_team as int)[i as int]);
            return Err(WagerError::InvalidWinner);
        }
        assert(remaining@[2 * i] == winning_players@[i as int]);
    }
    Ok(WinnerPlan { winners: winning_players, amount: winning_amount })
}

/// The check made on a winner's account pair before a transfer: the
/// token account must be owned by the passed winner account and hold the
/// program's mint, and that account must be one of the winners.
pub open spec fn winner_account_check(
    winners: Seq<Pubkey>,
    winner_account: Pubkey,
    token_account: TokenAccountState,
    token_mint: Pubkey,
) -> Result<(), WagerError> {
    if token_account.owner != winner_account {
        Err(WagerError::InvalidWinnerTokenAccount)
    } else if token_account.mint != token_mint {
        Err(WagerError::InvalidTokenMint)
    } else if !winners.contains(winner_account) {
        Err(WagerError::InvalidWinner)
    } else {
        Ok(())
    }
}

/// Checks one winner's account pair and names the transfer to make.
pub fn winner_transfer(
    plan: &WinnerPlan,
    winner_account: Pubkey,
    token_account: TokenAccountState,
    token_mint: Pubkey,
) -> (r: Result<TokenTransfer, WagerError>)
    ensures
        match winner_account_check(plan.winners@, winner_account, token_account, token_mint) {
            Ok(_) => r == Ok::<TokenTransfer, WagerError>(
                TokenTransfer { counterparty: winner_account, amount: plan.amount },
            ),
            Err(e) => r == Err::<TokenTransfer, WagerError>(e),
        },
{
    if !(token_account.owner == winner_account) {
        return Err(WagerError::InvalidWinnerTokenAccount);
    }
    if !(token_account.mint == token_mint) {
        return Err(WagerError::InvalidTokenMint);
    }
    let n = plan.winners.len();
    let mut found = false;
    for i in 0..n
        invariant
            n == plan.winners@.len(),
            found <==> exists|k: int| 0 <= k < i && plan.winners@[k] == winner_account,
    {
        if plan.winners[i] == winner_account {
            found = true;
        }
    }
    if !found {
        return Err(WagerError::InvalidWinner);
    }
    Ok(TokenTransfer { counterparty: winner_account, amount: plan.amount })
}

/// The outcome of a winner-takes-all payout request at time `now`: the
/// game server must be the session's authority, the game moves to
/// `Completed` by compare-and-swap, then the payout is planned.
pub open spec fn winner_distribution_outcome(
    s: SessionView,
    session_id: Seq<char>,
    game_server: Pubkey,
    remaining: Seq<Pubkey>,
    vault_balance: u64,
    winning_team: u8,
    now: i64,
) -> (SessionView, Result<(Seq<Pubkey>, u64), WagerError>) {
    if !session_id_is_valid(session_id) {
        (s, Err(WagerError::InvalidSessionId))
    } else if s.authority != game_server {
        (s, Err(WagerError::UnauthorizedDistribution))
    } else if s.status != GameStatus::InProgress {
        (s, Err(WagerError::InvalidGameState))
    } else {
        let (t, c) = s.swapped(s.status, s.nonce, GameStatus::Completed, Some("legacy_transition"@), now);
        match c {
            Err(e) => (t, Err(e)),
            Ok(false) => (t, Err(WagerError::ConcurrentOperation)),
            Ok(true) => if !(t.status == GameStatus::Completed && t.nonce == s.nonce + 1) {
                (t, Err(WagerError::ConcurrentOperation))
            } else {
                (t, winner_plan(t, winning_team, remaining, vault_balance))
            },
        }
    }
}

/// Starts a winner-takes-all payout to `winning_team` at time `now`.
pub fn distribute_all_winnings_handler(
    accounts: &mut DistributeWinnings,
    session_id: &str,
    winning_team: u8,
    now: i64,
) -> (r: Result<WinnerPlan, WagerError>)
    requires
        old(accounts).game_session@.window_fits(),
    ensures
        ({
            let (s, o) = winner_distribution_outcome(
                old(accounts).game_session@,
                session_id@,
                old(accounts).game_server,
                old(accounts).remaining_accounts@,
                old(accounts).vault_token_account.amount,
                winning_team,
                now,
            );
            &&& final(accounts).game_session@ == s
            &&& match o {
                Ok((winners, amount)) => r matches Ok(p) && p.winners@ == winners && p.amount == amount,
                Err(e) => r matches Err(f) && e == f,
            }
        }),
        final(accounts).game_server == old(accounts).game_server,
        final(accounts).remaining_accounts@ == old(accounts).remaining_accounts@,
        final(accounts).vault_token_account == old(accounts).vault_token_account,
{
    validate_session_id(session_id)?;
    if !(accounts.game_session.authority == accounts.game_server) {
        return Err(WagerError::UnauthorizedDistribution);
    }
    let current_nonce = accounts.game_session.nonce;
    if accounts.game_session.status != GameStatus::InProgress {
        return Err(WagerError::InvalidGameState);
    }
    accounts.game_session.atomic_status_transition(GameStatus::Completed, current_nonce, now)?;
    if !(accounts.game_session.status == GameStatus::Completed && current_nonce < u64::MAX
        && accounts.game_session.nonce == current_nonce + 1) {
        return Err(WagerError::ConcurrentOperation);
    }
    plan_winner_payouts(
        &accounts.game_session,
        winning_team,
        &accounts.remaining_accounts,
        accounts.vault_token_account.amount,
    )
}

} // verus!
