use wager_program::errors::{ErrorSeverity, WagerError};
use wager_program::pubkey::Pubkey;
use wager_program::session::GameSession;
use wager_program::state::{
    safe_add_u64, safe_add_u8, safe_mul_u64, DistributionStatus, GameMode, GameStatus, MAX_BET, MAX_KILLS,
    MAX_SPAWNS, MAX_TOTAL_ACTIVITY, MIN_BET,
};
use wager_program::team::Team;

#[test]
fn test_error_severity_classification() {
    assert_eq!(WagerError::GameDataCorruption.severity(), ErrorSeverity::Critical);
    assert_eq!(WagerError::ArithmeticError.severity(), ErrorSeverity::High);
    assert_eq!(WagerError::PlayerNotFound.severity(), ErrorSeverity::Low);
}

#[test]
fn test_emergency_pause_triggers() {
    assert!(WagerError::GameDataCorruption.should_emergency_pause());
    assert!(WagerError::ReplayAttack.should_emergency_pause());
    assert!(!WagerError::PlayerNotFound.should_emergency_pause());
}

#[test]
fn test_retryable_errors() {
    assert!(WagerError::ConcurrentOperation.is_retryable());
    assert!(WagerError::RateLimitExceeded.is_retryable());
    assert!(!WagerError::GameDataCorruption.is_retryable());
}

#[test]
fn test_overflow_impossible() {
    let max_activity = (MAX_KILLS as u64) + (MAX_SPAWNS as u64);
    let max_earnings = max_activity * MAX_BET / 10;
    assert!(max_earnings < u64::MAX);
    assert!(max_activity <= MAX_TOTAL_ACTIVITY);
    let intermediate = max_activity * MAX_BET;
    assert!(intermediate < u64::MAX);
}

#[test]
fn test_safe_arithmetic() {
    assert!(safe_add_u8(25, 25, MAX_KILLS).is_ok());
    assert!(safe_add_u8(26, 25, MAX_KILLS).is_err());
    assert!(safe_add_u64(1000, 2000).unwrap() == 3000);
    assert!(safe_mul_u64(1000, 1000).unwrap() == 1_000_000);
}

#[test]
fn test_conservative_limits() {
    assert!(MAX_KILLS < 100);
    assert!(MAX_SPAWNS < 100);
    assert!(MAX_BET < 1_000_000_000);
    let max_calc = (MAX_KILLS as u64 + MAX_SPAWNS as u64) * MAX_BET;
    assert!(max_calc < u64::MAX / 1000);
}

fn session_at(status: GameStatus, authority: Pubkey) -> GameSession {
    GameSession {
        session_id: "test_session".to_string(),
        authority,
        session_bet: MIN_BET,
        game_mode: GameMode::WinnerTakesAllOneVsOne,
        team_a: Team::default(),
        team_b: Team::default(),
        status,
        created_at: 1234567890,
        bump: 255,
        vault_bump: 254,
        nonce: 100,
        last_operation: 1234567890,
        session_hash: [0u8; 32],
        operation_count: 0,
        last_operation_window: 1234567890,
        operations_in_window: 0,
        distribution_status: DistributionStatus::NotStarted,
        distribution_started_at: 0,
        distribution_nonce: 0,
        last_distribution_attempt: 0,
        current_operation: None,
        operation_started_at: 0,
        locked: false,
    }
}

#[test]
fn test_compare_and_swap_status_concurrent_lock() {
    let now: i64 = 1234567890;
    let mut game_session = session_at(GameStatus::WaitingForPlayers, Pubkey::new(7, 11));

    // Test successful CAS
    let result = game_session.compare_and_swap_status(
        GameStatus::WaitingForPlayers,
        100,
        GameStatus::InProgress,
        Some("test_transition"),
        now,
    );
    assert!(result.is_ok());
    assert!(result.unwrap());
    assert_eq!(game_session.status, GameStatus::InProgress);
    assert_eq!(game_session.nonce, 101);
    assert!(game_session.locked);
    assert_eq!(game_session.current_operation, Some("test_transition".to_string()));

    // Test concurrent CAS attempt (should fail due to lock)
    let result = game_session.compare_and_swap_status(
        GameStatus::InProgress,
        101,
        GameStatus::Completed,
        Some("test_concurrent"),
        now,
    );
    assert!(result.is_err());
    assert_eq!(result.unwrap_err(), WagerError::ConcurrentOperation);
    assert_eq!(game_session.status, GameStatus::InProgress);
    assert_eq!(game_session.nonce, 101);

    // Test failed CAS due to wrong status
    game_session.locked = false;
    game_session.current_operation = None;
    game_session.operation_started_at = 0;
    let result = game_session.compare_and_swap_status(
        GameStatus::WaitingForPlayers,
        101,
        GameStatus::Completed,
        Some("test_fail"),
        now,
    );
    assert!(result.is_ok());
    assert!(!result.unwrap());
    assert_eq!(game_session.status, GameStatus::InProgress);
    assert_eq!(game_session.nonce, 101);
    assert!(!game_session.locked);
}

#[test]
fn test_clear_operation_lock_timeout() {
    let now: i64 = 1234567890;
    let mut game_session = session_at(GameStatus::DistributionInProgress, Pubkey::new(3, 5));
    game_session.distribution_status = DistributionStatus::InProgress;
    game_session.distribution_started_at = 1234567890;
    game_session.current_operation = Some("distribution".to_string());
    game_session.operation_started_at = 1234567890;
    game_session.locked = true;

    // Test clearing lock before timeout (should fail)
    let authority = game_session.authority;
    let result = game_session.clear_operation_lock(authority, now);
    assert!(result.is_err());
    assert_eq!(result.unwrap_err(), WagerError::ConcurrentOperation);

    // Simulate timeout (300 seconds for distribution)
    game_session.operation_started_at = 1234567890 - 300;
    let result = game_session.clear_operation_lock(authority, now);
    assert!(result.is_ok());
    assert!(!game_session.locked);
    assert_eq!(game_session.current_operation, None);
    assert_eq!(game_session.operation_started_at, 0);

    // Test unauthorized clear attempt
    let result = game_session.clear_operation_lock(Pubkey::new(99, 1), now);
    assert!(result.is_err());
    assert_eq!(result.unwrap_err(), WagerError::UnauthorizedDistribution);
}
