use wager_program::errors::{ErrorSeverity, WagerError};
use wager_program::instructions::create_game_session::{create_game_session_handler, CreateGameSession, MintState};
use wager_program::instructions::distribute_winnings::{
    distribute_all_winnings_handler, distribute_pay_spawn_earnings, payout_pair_index, plan_pay_spawn_payouts,
    plan_winner_payouts, winner_transfer, DistributeWinnings,
};
use wager_program::instructions::emergency_pause::{emergency_pause, EmergencyPause};
use wager_program::instructions::join_user::{
    abort_join_user, complete_join_user, join_operation_label, join_user_handler, JoinUser,
};
use wager_program::instructions::pay_to_spawn::{
    pay_to_spawn_handler, revert_spawn_purchase, settle_spawn_purchase, PayToSpawn, SpawnPurchase,
};
use wager_program::instructions::record_kill::{record_kill_handler, RecordKill};
use wager_program::instructions::refund_wager::{finish_refund, refund_transfer, refund_wager_handler, RefundWager};
use wager_program::instructions::{check_payout_accounts, check_payouts_complete, TokenAccountState, TokenTransfer};
use wager_program::pubkey::Pubkey;
use wager_program::session::GameSession;
use wager_program::state::{
    safe_div_u64, DistributionStatus, GameMode, GameStatus, MAX_OPERATIONS_PER_MINUTE, MIN_BET,
};
use wager_program::team::Team;
use wager_program::utils::{
    generate_session_hash, safe_multiply_and_divide, validate_bet_amount, validate_kill_count,
    validate_remaining_accounts_against_players, validate_session_id, validate_spawn_count,
    validate_vault_balance,
};

const NOW: i64 = 1_700_000_000;
const SID: &str = "match42alpha7";

fn key(n: u128) -> Pubkey {
    Pubkey::new(0, n)
}

fn blank_session(mode: GameMode, status: GameStatus, authority: Pubkey) -> GameSession {
    GameSession {
        session_id: SID.to_string(),
        authority,
        session_bet: MIN_BET,
        game_mode: mode,
        team_a: Team::default(),
        team_b: Team::default(),
        status,
        created_at: NOW,
        bump: 1,
        vault_bump: 2,
        nonce: 7,
        last_operation: NOW,
        session_hash: [0u8; 32],
        operation_count: 0,
        last_operation_window: NOW,
        operations_in_window: 0,
        distribution_status: DistributionStatus::NotStarted,
        distribution_started_at: 0,
        distribution_nonce: 0,
        last_distribution_attempt: 0,
        current_operation: None,
        operation_started_at: 0,
        locked: false,
    }
}

/// A running one-on-one game: key 10 on team A, key 20 on team B.
fn running_duel(mode: GameMode) -> GameSession {
    let mut s = blank_session(mode, GameStatus::InProgress, key(1));
    s.team_a.players[0] = key(10);
    s.team_b.players[0] = key(20);
    s
}

fn created_session(mint: Pubkey, mode: GameMode) -> GameSession {
    let mut accounts = CreateGameSession {
        game_server: key(1),
        game_session: blank_session(mode, GameStatus::Cancelled, key(0)),
        vault: key(2),
        vault_token_account: TokenAccountState { mint, owner: key(2), amount: 0 },
        mint: MintState { key: mint, is_initialized: true },
        game_session_bump: 9,
        vault_bump: 8,
    };
    let r = create_game_session_handler(&mut accounts, SID.to_string(), MIN_BET, mode, mint, NOW, 500);
    assert_eq!(r, Ok(()));
    accounts.game_session
}

// ---- errors ----

#[test]
fn severity_labels_and_classes() {
    assert_eq!(WagerError::ReplayAttack.severity(), ErrorSeverity::Critical);
    assert_eq!(WagerError::InvalidTeam.severity(), ErrorSeverity::Medium);
    assert_eq!(ErrorSeverity::Critical.to_string(), "CRITICAL");
    assert_eq!(ErrorSeverity::Low.to_string(), "LOW");
    assert!(WagerError::CircuitBreakerActivated.should_emergency_pause());
    assert!(WagerError::InsufficientVaultFunds.is_retryable());
    assert!(!WagerError::InvalidSessionId.is_retryable());
}

// ---- status life cycle ----

#[test]
fn life_cycle_graph() {
    assert!(GameStatus::WaitingForPlayers.can_transition_to(&GameStatus::InProgress));
    assert!(GameStatus::DistributionInProgress.can_transition_to(&GameStatus::Completed));
    assert!(!GameStatus::InProgress.can_transition_to(&GameStatus::Completed));
    assert!(GameStatus::Completed.can_transition_to(&GameStatus::EmergencyPaused));
    assert!(!GameStatus::Completed.can_transition_to(&GameStatus::InProgress));
    assert!(!GameStatus::Expired.can_transition_to(&GameStatus::RefundInProgress));
    assert!(GameStatus::Cancelled.is_final());
    assert!(!GameStatus::InProgress.is_final());
}

#[test]
fn swap_into_distribution_keeps_lock_and_counts() {
    let mut s = running_duel(GameMode::WinnerTakesAllOneVsOne);
    let r = s.compare_and_swap_status(GameStatus::InProgress, 7, GameStatus::DistributionInProgress, Some("payout"), NOW);
    assert_eq!(r, Ok(true));
    assert_eq!(s.status, GameStatus::DistributionInProgress);
    assert_eq!(s.nonce, 8);
    assert!(s.locked);
    assert_eq!(s.distribution_status, DistributionStatus::InProgress);
    assert_eq!(s.distribution_nonce, 1);
    assert_eq!(s.operation_count, 1);
    assert_eq!(s.operations_in_window, 1);
}

#[test]
fn swap_into_cancelled_releases_lock() {
    let mut s = running_duel(GameMode::WinnerTakesAllOneVsOne);
    let r = s.compare_and_swap_status(GameStatus::InProgress, 7, GameStatus::Cancelled, Some("stop"), NOW);
    assert_eq!(r, Ok(true));
    assert_eq!(s.status, GameStatus::Cancelled);
    assert!(!s.locked);
    assert_eq!(s.current_operation, None);
}

#[test]
fn swap_against_the_graph_is_refused() {
    let mut s = running_duel(GameMode::WinnerTakesAllOneVsOne);
    let r = s.atomic_status_transition(GameStatus::Completed, 7, NOW);
    assert_eq!(r, Err(WagerError::InvalidGameState));
    assert_eq!(s.status, GameStatus::InProgress);
    assert_eq!(s.nonce, 7);
}

#[test]
fn stale_nonce_is_a_concurrent_operation() {
    let mut s = running_duel(GameMode::WinnerTakesAllOneVsOne);
    let r = s.atomic_status_transition(GameStatus::Cancelled, 6, NOW);
    assert_eq!(r, Err(WagerError::ConcurrentOperation));
    assert!(!s.locked);
}

// ---- rate limit and bookkeeping ----

#[test]
fn rate_limit_admits_sixty_per_window() {
    let mut s = running_duel(GameMode::WinnerTakesAllOneVsOne);
    for _ in 0..MAX_OPERATIONS_PER_MINUTE {
        assert_eq!(s.check_rate_limit(NOW + 10), Ok(()));
    }
    assert_eq!(s.check_rate_limit(NOW + 10), Err(WagerError::RateLimitExceeded));
    assert_eq!(s.operations_in_window, 60);
    assert_eq!(s.check_rate_limit(NOW + 60), Ok(()));
    assert_eq!(s.operations_in_window, 1);
    assert_eq!(s.last_operation_window, NOW + 60);
}

#[test]
fn bookkeeping_advances_nonce() {
    let mut s = running_duel(GameMode::WinnerTakesAllOneVsOne);
    assert_eq!(s.update_operation_tracking(NOW + 5), Ok(()));
    assert_eq!(s.nonce, 8);
    assert_eq!(s.operation_count, 1);
    assert_eq!(s.last_operation, NOW + 5);
    s.nonce = u64::MAX;
    assert_eq!(s.update_operation_tracking(NOW + 6), Err(WagerError::ArithmeticError));
}

// ---- kills, spawns, earnings ----

#[test]
fn kill_moves_one_life() {
    let mut s = running_duel(GameMode::WinnerTakesAllOneVsOne);
    assert_eq!(s.add_kill(0, key(10), 1, key(20), NOW), Ok(()));
    assert_eq!(s.team_a.player_kills[0], 1);
    assert_eq!(s.team_b.player_spawns[0], 9);
    assert_eq!(s.team_a.player_spawns[0], 10);
    assert_eq!(s.nonce, 8);
}

#[test]
fn kill_errors() {
    let mut s = running_duel(GameMode::WinnerTakesAllOneVsOne);
    assert_eq!(s.add_kill(0, key(10), 0, key(20), NOW), Err(WagerError::InvalidTeam));
    assert_eq!(s.add_kill(0, key(10), 1, key(10), NOW), Err(WagerError::InvalidKillTarget));
    assert_eq!(s.add_kill(0, key(30), 1, key(20), NOW), Err(WagerError::PlayerNotFound));
    s.team_b.player_spawns[0] = 0;
    assert_eq!(s.add_kill(0, key(10), 1, key(20), NOW), Err(WagerError::PlayerHasNoSpawns));
    s.status = GameStatus::WaitingForPlayers;
    assert_eq!(s.add_kill(0, key(10), 1, key(20), NOW), Err(WagerError::GameNotInProgress));
}

#[test]
fn spawns_follow_the_mode() {
    let mut s = running_duel(GameMode::PayToSpawnOneVsOne);
    assert_eq!(s.add_spawns(0, 0, NOW), Ok(()));
    assert_eq!(s.team_a.player_spawns[0], 13);
    let mut w = running_duel(GameMode::WinnerTakesAllOneVsOne);
    assert_eq!(w.add_spawns(0, 0, NOW), Err(WagerError::InvalidGameModeForOperation));
    assert_eq!(s.add_spawns(0, 1, NOW), Err(WagerError::PlayerIndexOutOfBounds));
}

#[test]
fn earnings_formula() {
    let mut s = running_duel(GameMode::PayToSpawnOneVsOne);
    s.team_a.player_kills[0] = 2;
    // (2 kills + 10 spawns) * bet / 10
    assert_eq!(s.calculate_player_earnings(key(10)), Ok(1_200_000));
    assert_eq!(s.get_kills_and_spawns(key(10)), Ok(12));
    assert_eq!(s.calculate_player_earnings(Pubkey::default()), Err(WagerError::InvalidPlayer));
    assert_eq!(s.calculate_player_earnings(key(99)), Err(WagerError::PlayerNotFound));
    s.team_a.player_kills[0] = 51;
    assert_eq!(s.calculate_player_earnings(key(10)), Err(WagerError::InvalidKillCount));
}

#[test]
fn filled_checks() {
    let s = running_duel(GameMode::WinnerTakesAllOneVsOne);
    assert_eq!(s.check_all_filled(), Ok(true));
    assert_eq!(s.check_all_filled_secure(), Ok(true));
    let mut d = running_duel(GameMode::WinnerTakesAllOneVsOne);
    d.team_b.players[0] = key(10);
    assert_eq!(d.check_all_filled(), Err(WagerError::DuplicatePlayer));
    let e = blank_session(GameMode::WinnerTakesAllOneVsOne, GameStatus::WaitingForPlayers, key(1));
    assert_eq!(e.check_all_filled(), Ok(false));
    assert_eq!(s.get_all_players(), vec![key(10), key(20)]);
}

#[test]
fn lock_clear_window_depends_on_operation() {
    let mut s = running_duel(GameMode::WinnerTakesAllOneVsOne);
    s.locked = true;
    s.current_operation = Some("join_user_x".to_string());
    s.operation_started_at = NOW;
    assert_eq!(s.clear_operation_lock(key(1), NOW + 119), Err(WagerError::ConcurrentOperation));
    assert_eq!(s.clear_operation_lock(key(1), NOW + 120), Ok(()));
    assert!(!s.locked);
}

// ---- utilities ----

#[test]
fn session_id_rules() {
    assert_eq!(validate_session_id(SID), Ok(()));
    assert_eq!(validate_session_id("ab12"), Err(WagerError::InvalidSessionId));
    assert_eq!(validate_session_id("abcdefghijkl"), Err(WagerError::InvalidSessionId));
    assert_eq!(validate_session_id("aaab12cdef34"), Err(WagerError::InvalidSessionId));
    assert_eq!(validate_session_id("ab__12cdef34"), Err(WagerError::InvalidSessionId));
    assert_eq!(validate_session_id("ab12cdef34g_"), Err(WagerError::InvalidSessionId));
    assert_eq!(validate_session_id("a1a1a1a1a1a1"), Err(WagerError::InvalidSessionId));
    assert_eq!(validate_session_id("ab12 cdef34x"), Err(WagerError::InvalidSessionId));
}

#[test]
fn remaining_account_rules() {
    let players = [key(10), key(20)];
    assert_eq!(validate_remaining_accounts_against_players(&[key(10), key(11), key(20), key(21)], &players), Ok(()));
    assert_eq!(
        validate_remaining_accounts_against_players(&[key(10), key(11)], &players),
        Err(WagerError::InvalidRemainingAccounts)
    );
    assert_eq!(
        validate_remaining_accounts_against_players(&[key(10), key(11), key(20), key(11)], &players),
        Err(WagerError::DuplicatePlayer)
    );
    assert_eq!(
        validate_remaining_accounts_against_players(&[key(20), key(11), key(10), key(21)], &players),
        Err(WagerError::InvalidPlayer)
    );
    assert_eq!(
        validate_remaining_accounts_against_players(&[key(10), Pubkey::default(), key(20), key(21)], &players),
        Err(WagerError::InvalidPlayer)
    );
}

#[test]
fn checked_arithmetic() {
    assert_eq!(safe_multiply_and_divide(12, 1_000_000, 10), Ok(1_200_000));
    assert_eq!(safe_multiply_and_divide(0, 5, 10), Err(WagerError::ArithmeticError));
    assert_eq!(safe_multiply_and_divide(u64::MAX, 2, 10), Err(WagerError::ArithmeticError));
    assert_eq!(safe_div_u64(10, 0), Err(WagerError::ArithmeticError));
    assert_eq!(safe_div_u64(10, 3), Ok(3));
}

#[test]
fn money_limits() {
    assert_eq!(validate_vault_balance(1_001_000, 1_000_000), Ok(()));
    assert_eq!(validate_vault_balance(1_000_999, 1_000_000), Err(WagerError::InsufficientVaultFunds));
    assert_eq!(validate_vault_balance(10_010_000_000, 10_000_000_000), Ok(()));
    assert_eq!(validate_bet_amount(999), Err(WagerError::InvalidBetAmount));
    assert_eq!(validate_bet_amount(1000), Ok(()));
    assert_eq!(validate_spawn_count(95, 5), Ok(()));
    assert!(validate_spawn_count(96, 5).is_err());
    assert_eq!(validate_kill_count(199), Ok(()));
    assert_eq!(validate_kill_count(200), Err(WagerError::ArithmeticError));
}

#[test]
fn session_hash_layout() {
    let h = generate_session_hash(SID, key(1), NOW);
    assert_eq!(h, generate_session_hash(SID, key(1), NOW));
    for i in 8..32 {
        assert_eq!(h[i], h[i % 8] ^ (NOW as u8));
    }
}

#[test]
fn join_label_uses_base58_prefix() {
    assert_eq!(join_operation_label(Pubkey::default()), "join_user_11111111");
    let all_ones = Pubkey::new(u128::MAX, u128::MAX);
    let text = anchor_lang::prelude::Pubkey::new_from_array([0xffu8; 32]).to_string();
    assert_eq!(join_operation_label(all_ones), format!("join_user_{}", &text[..8]));
    assert_ne!(join_operation_label(all_ones), "join_user_11111111");
}

// ---- instructions ----

#[test]
fn create_session_initializes() {
    let mint = key(77);
    let s = created_session(mint, GameMode::WinnerTakesAllThreeVsThree);
    assert_eq!(s.status, GameStatus::WaitingForPlayers);
    assert_eq!(s.authority, key(1));
    assert_eq!(s.nonce, 500);
    assert_eq!(s.created_at, NOW);
    assert!(!s.locked);
    assert_eq!(s.validate_integrity(), Ok(()));
}

#[test]
fn create_session_errors() {
    let mint = key(77);
    let mut accounts = CreateGameSession {
        game_server: Pubkey::default(),
        game_session: blank_session(GameMode::WinnerTakesAllOneVsOne, GameStatus::Cancelled, key(0)),
        vault: key(2),
        vault_token_account: TokenAccountState { mint, owner: key(2), amount: 0 },
        mint: MintState { key: mint, is_initialized: true },
        game_session_bump: 9,
        vault_bump: 8,
    };
    let mode = GameMode::WinnerTakesAllOneVsOne;
    assert_eq!(
        create_game_session_handler(&mut accounts, SID.to_string(), MIN_BET, mode, mint, NOW, 0),
        Err(WagerError::AuthorityMismatch)
    );
    accounts.game_server = key(1);
    assert_eq!(
        create_game_session_handler(&mut accounts, SID.to_string(), MIN_BET, mode, key(78), NOW, 0),
        Err(WagerError::InvalidMint)
    );
    assert_eq!(
        create_game_session_handler(&mut accounts, "bad".to_string(), MIN_BET, mode, mint, NOW, 0),
        Err(WagerError::InvalidSessionId)
    );
    assert_eq!(
        create_game_session_handler(&mut accounts, SID.to_string(), 5000, mode, mint, NOW, 0),
        Err(WagerError::InvalidBetAmount)
    );
    accounts.vault_token_account.amount = 3;
    assert_eq!(
        create_game_session_handler(&mut accounts, SID.to_string(), MIN_BET, mode, mint, NOW, 0),
        Err(WagerError::InvalidPlayerTokenAccount)
    );
}

fn join(session: GameSession, user: Pubkey, team: u8, mint: Pubkey, now: i64) -> (GameSession, Result<(), WagerError>) {
    let mut j = JoinUser {
        user,
        game_server: key(1),
        game_session: session,
        user_token_account: TokenAccountState { mint, owner: user, amount: 5_000_000 },
        vault: key(2),
        vault_token_account: TokenAccountState { mint, owner: key(2), amount: 0 },
    };
    let ticket = match join_user_handler(&mut j, SID, team, mint, now) {
        Ok(t) => t,
        Err(e) => return (j.game_session, Err(e)),
    };
    assert_eq!(ticket.transfer.amount, MIN_BET);
    assert_eq!(ticket.transfer.counterparty, user);
    let r = complete_join_user(&mut j, ticket, 1_000_000_000, now);
    (j.game_session, r)
}

#[test]
fn two_joins_start_the_game() {
    let mint = key(77);
    let s = created_session(mint, GameMode::WinnerTakesAllOneVsOne);
    let (s, r) = join(s, key(10), 0, mint, NOW + 1);
    assert_eq!(r, Ok(()));
    assert_eq!(s.team_a.players[0], key(10));
    assert_eq!(s.team_a.total_bet, MIN_BET);
    assert_eq!(s.status, GameStatus::WaitingForPlayers);
    assert_eq!(s.current_operation, None);
    let (s, r) = join(s, key(10), 1, mint, NOW + 2);
    assert_eq!(r, Err(WagerError::DuplicatePlayer));
    let (s, r) = join(s, key(20), 0, mint, NOW + 2);
    assert_eq!(r, Err(WagerError::TeamIsFull));
    let (s, r) = join(s, key(20), 1, mint, NOW + 3);
    assert_eq!(r, Ok(()));
    assert_eq!(s.status, GameStatus::InProgress);
    assert!(s.locked);
    assert_eq!(s.current_operation, Some("auto_start_game".to_string()));
}

#[test]
fn join_refusals() {
    let mint = key(77);
    let s = created_session(mint, GameMode::WinnerTakesAllOneVsOne);
    let mut j = JoinUser {
        user: key(10),
        game_server: key(1),
        game_session: s,
        user_token_account: TokenAccountState { mint, owner: key(10), amount: MIN_BET + 999 },
        vault: key(2),
        vault_token_account: TokenAccountState { mint, owner: key(2), amount: 0 },
    };
    assert_eq!(join_user_handler(&mut j, SID, 0, mint, NOW).unwrap_err(), WagerError::InsufficientFunds);
    j.user_token_account.amount = MIN_BET + 1000;
    assert_eq!(join_user_handler(&mut j, SID, 2, mint, NOW).unwrap_err(), WagerError::InvalidTeamSelection);
    assert_eq!(join_user_handler(&mut j, SID, 0, key(5), NOW).unwrap_err(), WagerError::InvalidTokenMint);
    j.user_token_account.owner = key(11);
    assert_eq!(join_user_handler(&mut j, SID, 0, mint, NOW).unwrap_err(), WagerError::InvalidPlayerTokenAccount);
    j.user_token_account.owner = key(10);
    let ticket = join_user_handler(&mut j, SID, 0, mint, NOW).unwrap();
    assert_eq!(ticket.slot, 0);
    assert!(j.game_session.current_operation.is_some());
    abort_join_user(&mut j);
    assert_eq!(j.game_session.current_operation, None);
    assert_eq!(j.game_session.team_a.players[0], Pubkey::default());
}

#[test]
fn kill_report_through_the_instruction() {
    let mut rk = RecordKill { game_session: running_duel(GameMode::WinnerTakesAllOneVsOne), game_server: key(1), game_server_is_signer: true };
    assert_eq!(record_kill_handler(&mut rk, SID, 0, key(10), 1, key(20), NOW + 5), Ok(()));
    assert_eq!(rk.game_session.team_a.player_kills[0], 1);
    assert_eq!(rk.game_session.team_b.player_spawns[0], 9);
    rk.game_server = key(2);
    assert_eq!(record_kill_handler(&mut rk, SID, 0, key(10), 1, key(20), NOW + 6), Err(WagerError::UnauthorizedKill));
    rk.game_server = key(1);
    assert_eq!(record_kill_handler(&mut rk, SID, 0, key(10), 0, key(20), NOW + 6), Err(WagerError::InvalidKillTarget));
    assert_eq!(record_kill_handler(&mut rk, SID, 0, key(10), 1, key(20), NOW + 100_000), Err(WagerError::GameTimeout));
}

#[test]
fn emergency_pause_from_running_game() {
    let mut p = EmergencyPause { game_session: running_duel(GameMode::WinnerTakesAllOneVsOne), authority: key(1) };
    assert_eq!(emergency_pause(&mut p, NOW + 1), Ok(()));
    assert_eq!(p.game_session.status, GameStatus::EmergencyPaused);
    assert_eq!(p.game_session.nonce, 8);
    assert!(!p.game_session.locked);
    // A paused game may be paused again.
    assert_eq!(emergency_pause(&mut p, NOW + 2), Ok(()));
    assert_eq!(p.game_session.nonce, 9);
    let mut f = EmergencyPause { game_session: blank_session(GameMode::WinnerTakesAllOneVsOne, GameStatus::Completed, key(1)), authority: key(1) };
    assert_eq!(emergency_pause(&mut f, NOW + 1), Err(WagerError::InvalidGameState));
}

#[test]
fn refund_of_a_waiting_game() {
    let mint = key(77);
    let mut s = blank_session(GameMode::WinnerTakesAllOneVsOne, GameStatus::WaitingForPlayers, key(1));
    s.team_a.players[0] = key(10);
    let mut rw = RefundWager {
        game_server: key(1),
        game_session: s,
        vault: key(2),
        vault_token_account: TokenAccountState { mint, owner: key(2), amount: 1_010_000 },
        remaining_accounts: vec![key(10), key(11)],
    };
    let plan = refund_wager_handler(&mut rw, SID, NOW + 1).unwrap();
    assert_eq!(plan.players, vec![key(10)]);
    assert_eq!(plan.amount, MIN_BET);
    assert_eq!(rw.game_session.status, GameStatus::RefundInProgress);
    assert!(rw.game_session.locked);
    let t = refund_transfer(&plan, key(10), TokenAccountState { mint, owner: key(10), amount: 0 }, key(10), mint).unwrap();
    assert_eq!(t.amount, MIN_BET);
    assert_eq!(
        refund_transfer(&plan, key(10), TokenAccountState { mint: key(5), owner: key(10), amount: 0 }, key(10), mint),
        Err(WagerError::InvalidTokenMint)
    );
    assert_eq!(finish_refund(&mut rw.game_session, &plan, 0, NOW + 2), Err(WagerError::IncompleteDistribution));
    assert_eq!(finish_refund(&mut rw.game_session, &plan, 1, NOW + 2), Ok(()));
    assert_eq!(rw.game_session.status, GameStatus::Cancelled);
    assert!(!rw.game_session.locked);
}

#[test]
fn refund_refusals() {
    let mint = key(77);
    let mut s = blank_session(GameMode::WinnerTakesAllOneVsOne, GameStatus::WaitingForPlayers, key(1));
    s.team_a.players[0] = key(10);
    let mut rw = RefundWager {
        game_server: key(1),
        game_session: s,
        vault: key(2),
        vault_token_account: TokenAccountState { mint, owner: key(2), amount: 1_009_999 },
        remaining_accounts: vec![key(10), key(11)],
    };
    assert_eq!(refund_wager_handler(&mut rw, SID, NOW + 1).unwrap_err(), WagerError::InsufficientVaultFunds);
    let mut e = RefundWager {
        game_server: key(1),
        game_session: blank_session(GameMode::WinnerTakesAllOneVsOne, GameStatus::Expired, key(1)),
        vault: key(2),
        vault_token_account: TokenAccountState { mint, owner: key(2), amount: 10_000_000 },
        remaining_accounts: vec![key(10), key(11)],
    };
    assert_eq!(refund_wager_handler(&mut e, SID, NOW + 1).unwrap_err(), WagerError::InvalidGameState);
    assert_eq!(e.game_session.status, GameStatus::Expired);
}

#[test]
fn spawn_purchase_reports_corruption() {
    let mint = key(77);
    let s = created_session(mint, GameMode::PayToSpawnOneVsOne);
    let (s, _) = join(s, key(10), 0, mint, NOW + 1);
    let (s, _) = join(s, key(20), 1, mint, NOW + 2);
    assert_eq!(s.status, GameStatus::InProgress);
    let mut p = PayToSpawn {
        user: key(10),
        game_server: key(1),
        game_session: s,
        user_token_account: TokenAccountState { mint, owner: key(10), amount: 50_000_000 },
        vault: key(2),
        vault_token_account: TokenAccountState { mint, owner: key(2), amount: 2 * MIN_BET },
    };
    assert_eq!(pay_to_spawn_handler(&mut p, SID, 0, mint, NOW + 3).unwrap_err(), WagerError::GameDataCorruption);
    assert_eq!(pay_to_spawn_handler(&mut p, "bad", 0, mint, NOW + 3).unwrap_err(), WagerError::InvalidSessionId);
}

#[test]
fn payouts_cannot_complete_a_running_game() {
    let mint = key(77);
    let mut d = DistributeWinnings {
        game_server: key(1),
        game_session: running_duel(GameMode::WinnerTakesAllOneVsOne),
        vault: key(2),
        vault_token_account: TokenAccountState { mint, owner: key(2), amount: 10_000_000 },
        remaining_accounts: vec![key(10), key(11)],
    };
    assert_eq!(distribute_all_winnings_handler(&mut d, SID, 0, NOW + 1).err(), Some(WagerError::InvalidGameState));
    assert!(d.game_session.locked);
    assert_eq!(d.game_session.status, GameStatus::InProgress);
    assert_eq!(distribute_pay_spawn_earnings(&mut d, SID, NOW + 1).err(), Some(WagerError::ConcurrentOperation));
}

#[test]
fn payout_plans() {
    let mint = key(77);
    let mut s = running_duel(GameMode::PayToSpawnOneVsOne);
    s.team_a.player_kills[0] = 2;
    let plan = plan_pay_spawn_payouts(&s, &vec![key(10), key(11), key(20), key(21)], 10_000_000).unwrap();
    assert_eq!(plan.len(), 2);
    assert_eq!(plan[0].counterparty, key(10));
    assert_eq!(plan[0].amount, 1_200_000);
    assert_eq!(plan[1].amount, 1_000_000);
    assert_eq!(
        plan_pay_spawn_payouts(&s, &vec![key(10), key(11), key(20), key(21)], 2_200_999).err(),
        Some(WagerError::InsufficientVaultFunds)
    );
    assert_eq!(payout_pair_index(&vec![key(10), key(11), key(20), key(21)], key(20)), Ok(1));
    assert_eq!(payout_pair_index(&vec![key(10), key(11), key(20), key(21)], key(11)), Err(WagerError::InvalidPlayer));
    let w = running_duel(GameMode::WinnerTakesAllOneVsOne);
    let wp = plan_winner_payouts(&w, 1, &vec![key(20), key(21)], 10_000_000).unwrap();
    assert_eq!(wp.winners, vec![key(20)]);
    assert_eq!(wp.amount, 2 * MIN_BET);
    assert_eq!(plan_winner_payouts(&w, 2, &vec![key(20), key(21)], 10_000_000).err(), Some(WagerError::InvalidWinningTeam));
    assert_eq!(plan_winner_payouts(&w, 0, &vec![key(20), key(21)], 10_000_000).err(), Some(WagerError::InvalidWinner));
    let ok = winner_transfer(&wp, key(20), TokenAccountState { mint, owner: key(20), amount: 0 }, mint).unwrap();
    assert_eq!(ok.amount, 2 * MIN_BET);
    assert_eq!(
        winner_transfer(&wp, key(20), TokenAccountState { mint, owner: key(21), amount: 0 }, mint).err(),
        Some(WagerError::InvalidWinnerTokenAccount)
    );
    assert_eq!(
        check_payout_accounts(key(10), TokenAccountState { mint, owner: key(10), amount: 0 }, key(20), mint),
        Err(WagerError::InvalidPlayer)
    );
    assert_eq!(check_payouts_complete(5, 4, 1, 1), Err(WagerError::IncompleteDistribution));
    assert_eq!(check_payouts_complete(5, 5, 1, 1), Ok(()));
}

#[test]
fn remaining_error_codes() {
    assert_eq!(validate_spawn_count(10, 0), Err(WagerError::InvalidSpawns));
    assert_eq!(validate_spawn_count(96, 5), Err(WagerError::SpawnLimitExceeded));

    let mut half = blank_session(GameMode::WinnerTakesAllOneVsOne, GameStatus::WaitingForPlayers, key(1));
    half.team_a.players[0] = key(10);
    assert_eq!(half.check_all_filled_secure(), Err(WagerError::InvalidTeamComposition));
    assert_eq!(half.transition_status(GameStatus::InProgress, NOW), Err(WagerError::NotAllPlayersJoined));

    let mut early = blank_session(GameMode::WinnerTakesAllOneVsOne, GameStatus::WaitingForPlayers, key(1));
    early.created_at = 0;
    assert_eq!(early.validate_integrity(), Err(WagerError::InvalidTimestamp));
    let forged = blank_session(GameMode::WinnerTakesAllOneVsOne, GameStatus::WaitingForPlayers, key(1));
    assert_eq!(forged.validate_integrity(), Err(WagerError::SessionIdCollision));

    let mut rich = running_duel(GameMode::PayToSpawnOneVsOne);
    rich.session_bet = 2_000_000_000;
    rich.team_a.player_kills[0] = 50;
    rich.team_a.player_spawns[0] = 50;
    assert_eq!(rich.calculate_player_earnings(key(10)), Err(WagerError::ValueTooLarge));
}

#[test]
fn spawn_payment_settlement() {
    let purchase = SpawnPurchase {
        team: 0,
        player_index: 0,
        original_spawns: 10,
        transfer: TokenTransfer { counterparty: key(10), amount: 1000 },
    };
    let mut s = running_duel(GameMode::PayToSpawnOneVsOne);
    assert_eq!(settle_spawn_purchase(&mut s, purchase, 5000, 5999, 9000, 8000), Err(WagerError::VaultBalanceMismatch));
    assert_eq!(settle_spawn_purchase(&mut s, purchase, 5000, 6000, 9000, 8001), Err(WagerError::TokenTransferFailed));
    assert_eq!(s.team_a.total_bet, 0);
    assert_eq!(settle_spawn_purchase(&mut s, purchase, 5000, 6000, 9000, 8000), Ok(()));
    assert_eq!(s.team_a.total_bet, 1000);
    s.team_a.player_spawns[0] = 13;
    revert_spawn_purchase(&mut s, purchase);
    assert_eq!(s.team_a.player_spawns[0], 10);
}

#[test]
fn initialize_identifier_rules() {
    let mut s = blank_session(GameMode::WinnerTakesAllOneVsOne, GameStatus::Cancelled, key(0));
    assert_eq!(
        s.initialize("abcdefgh123".to_string(), key(1), MIN_BET, GameMode::WinnerTakesAllOneVsOne, 1, 2, NOW, 0),
        Err(WagerError::InvalidSessionId)
    );
    assert_eq!(s.status, GameStatus::Cancelled);
    assert_eq!(
        s.initialize("abcdefgh1234".to_string(), key(1), 10, GameMode::WinnerTakesAllOneVsOne, 1, 2, NOW, 0),
        Err(WagerError::InvalidBetAmount)
    );
    assert_eq!(
        s.initialize("abcdefgh1234".to_string(), key(1), MIN_BET, GameMode::WinnerTakesAllOneVsOne, 1, 2, NOW, 0),
        Ok(())
    );
    assert_eq!(s.status, GameStatus::WaitingForPlayers);
    assert_eq!(s.session_hash, generate_session_hash("abcdefgh1234", key(1), NOW));
    assert_eq!(s.validate_integrity(), Ok(()));
    assert_ne!(s.session_hash, generate_session_hash("abcdefgh1234", key(2), NOW));
    s.authority = key(2);
    assert_eq!(s.validate_integrity(), Err(WagerError::SessionIdCollision));
}

#[test]
fn spawn_settlement_outside_the_teams() {
    let purchase = SpawnPurchase {
        team: 2,
        player_index: 9,
        original_spawns: 10,
        transfer: TokenTransfer { counterparty: key(10), amount: 1000 },
    };
    let mut s = running_duel(GameMode::PayToSpawnOneVsOne);
    assert_eq!(settle_spawn_purchase(&mut s, purchase, 5000, 6000, 9000, 8000), Err(WagerError::InvalidTeam));
    revert_spawn_purchase(&mut s, purchase);
    assert_eq!(s.team_a.player_spawns[0], 10);
    assert_eq!(s.team_b.player_spawns[0], 10);
}
