//! The error codes of the wager program and their operational classification.
use vstd::prelude::*;

verus! {

/// Every way an instruction of the wager program can be refused.
#[derive(Debug, Clone, Copy, PartialEq, Eq, Structural)]
pub enum WagerError {
    /// Game session is not in the correct state
    InvalidGameState,
    /// Invalid team selection. Team must be 0 or 1
    InvalidTeamSelection,
    /// Team is already full
    TeamIsFull,
    /// Insufficient funds to join the game
    InsufficientFunds,
    /// Invalid number of players for this game mode
    InvalidPlayerCount,
    /// All players not joined
    NotAllPlayersJoined,
    /// Game is not in completed state
    GameNotCompleted,
    /// Only the game authority can distribute winnings
    UnauthorizedDistribution,
    /// Only the game authority can pause the game
    UnauthorizedPause,
    /// Invalid winning team selection
    InvalidWinningTeam,
    /// Failed to calculate total pot due to arithmetic overflow
    TotalPotCalculationError,
    /// No winners found in the winning team
    NoWinnersFound,
    /// Failed to calculate per-player winnings
    WinningsCalculationError,
    /// Failed to distribute all funds from game session
    IncompleteDistribution,
    /// Invalid team
    InvalidTeam,
    /// Player account not found in winners
    PlayerAccountNotFound,
    /// Invalid winning team selection
    InvalidWinner,
    /// Arithmetic error
    ArithmeticError,
    /// Invalid mint address provided
    InvalidMint,
    /// Invalid remaining accounts provided
    InvalidRemainingAccounts,
    /// Invalid winner token account owner
    InvalidWinnerTokenAccount,
    /// Invalid token mint
    InvalidTokenMint,
    /// Invalid spawns
    InvalidSpawns,
    /// Unauthorized kill
    UnauthorizedKill,
    /// Unauthorized pay to spawn
    UnauthorizedPayToSpawn,
    /// Player not found
    PlayerNotFound,
    /// Invalid player token account
    InvalidPlayerTokenAccount,
    /// Invalid player
    InvalidPlayer,
    /// Player has no spawns
    PlayerHasNoSpawns,
    /// Game is not in progress
    GameNotInProgress,
    /// Invalid session ID - must be 12-32 chars, alphanumeric with underscores/hyphens
    InvalidSessionId,
    /// Vault has insufficient funds for operation
    InsufficientVaultFunds,
    /// Game session already completed - no further operations allowed
    AlreadyCompleted,
    /// Cross-team kills only - cannot kill teammates
    InvalidKillTarget,
    /// Spawn purchase limit exceeded - maximum 100 spawns per player
    SpawnLimitExceeded,
    /// Game session expired - operations not allowed after timeout
    SessionExpired,
    /// Emergency pause is active - all operations suspended
    EmergencyPaused,
    /// Invalid token program provided
    InvalidTokenProgram,
    /// Account substitution detected - provided account does not match expected
    AccountSubstitution,
    /// Duplicate player detected - player already exists in game session
    DuplicatePlayer,
    /// Game timeout exceeded - maximum 24 hours
    GameTimeout,
    /// Invalid bet amount - must be between 0.001 and 1,000 tokens
    InvalidBetAmount,
    /// Invalid timestamp - negative or zero timestamps not allowed
    InvalidTimestamp,
    /// Concurrent operation detected - please retry
    ConcurrentOperation,
    /// Rate limit exceeded - too many operations in short time
    RateLimitExceeded,
    /// Invalid account derivation - PDA seeds do not match
    InvalidAccountDerivation,
    /// Account initialization failed - insufficient rent or invalid parameters
    AccountInitializationFailed,
    /// Token transfer failed - insufficient balance or invalid accounts
    TokenTransferFailed,
    /// Invalid game mode for operation
    InvalidGameModeForOperation,
    /// Player index out of bounds for game mode
    PlayerIndexOutOfBounds,
    /// Invalid kill count - exceeds maximum allowed
    InvalidKillCount,
    /// Session ID collision detected - use different session ID
    SessionIdCollision,
    /// Authority mismatch - signer does not match game authority
    AuthorityMismatch,
    /// Invalid buffer size - account space insufficient
    InvalidBufferSize,
    /// Vault balance mismatch - expected balance does not match actual
    VaultBalanceMismatch,
    /// Invalid spawn increment - must be between 1 and 50
    InvalidSpawnIncrement,
    /// Team composition invalid - incorrect number of players
    InvalidTeamComposition,
    /// Game data corruption detected
    GameDataCorruption,
    /// Invalid account ownership - account owner mismatch
    InvalidAccountOwnership,
    /// Insufficient entropy in session ID - must be more random
    InsufficientEntropy,
    /// Stake amount exceeds maximum allowed per player
    StakeAmountExceeded,
    /// Minimum stake requirement not met
    MinimumStakeNotMet,
    /// Invalid operation sequence - operations must be performed in correct order
    InvalidOperationSequence,
    /// Account freeze detected - operation not allowed
    AccountFrozen,
    /// Invalid signature - transaction not properly signed
    InvalidSignature,
    /// Replay attack detected - nonce already used
    ReplayAttack,
    /// Invalid program version - upgrade required
    InvalidProgramVersion,
    /// Circuit breaker activated - system protection engaged
    CircuitBreakerActivated,
    /// Value too large - exceeds maximum safe limits
    ValueTooLarge,
}

/// How urgently an error should be looked at by operators.
#[derive(Debug, Clone, Copy, PartialEq, Eq, Structural)]
pub enum ErrorSeverity {
    Critical,
    High,
    Medium,
    Low,
}

impl WagerError {
    /// The severity class of an error: security violations are critical,
    /// contention and arithmetic faults high, a few user mistakes low,
    /// everything else medium.
    pub open spec fn severity_class(self) -> ErrorSeverity {
        match self {
            WagerError::GameDataCorruption
            | WagerError::ReplayAttack
            | WagerError::AccountSubstitution
            | WagerError::InvalidSignature => ErrorSeverity::Critical,
            WagerError::ConcurrentOperation
            | WagerError::RateLimitExceeded
            | WagerError::ArithmeticError
            | WagerError::InvalidBetAmount
            | WagerError::SessionIdCollision => ErrorSeverity::High,
            WagerError::PlayerNotFound
            | WagerError::TeamIsFull
            | WagerError::InvalidPlayer => ErrorSeverity::Low,
            _ => ErrorSeverity::Medium,
        }
    }

    /// Errors that indicate tampering and should stop the whole game.
    pub open spec fn pauses_game(self) -> bool {
        ||| self == WagerError::GameDataCorruption
        ||| self == WagerError::ReplayAttack
        ||| self == WagerError::AccountSubstitution
        ||| self == WagerError::CircuitBreakerActivated
    }

    /// Errors that a client may resolve by simply trying again later.
    pub open spec fn retry_may_succeed(self) -> bool {
        ||| self == WagerError::ConcurrentOperation
        ||| self == WagerError::RateLimitExceeded
        ||| self == WagerError::InsufficientVaultFunds
        ||| self == WagerError::InvalidGameState
    }

    /// Severity level of this error, for logging and monitoring.
    pub fn severity(&self) -> (s: ErrorSeverity)
        ensures
            s == self.severity_class(),
    {
        match self {
            WagerError::GameDataCorruption
            | WagerError::ReplayAttack
            | WagerError::AccountSubstitution
            | WagerError::InvalidSignature => ErrorSeverity::Critical,
            WagerError::ConcurrentOperation
            | WagerError::RateLimitExceeded
            | WagerError::ArithmeticError
            | WagerError::InvalidBetAmount
            | WagerError::SessionIdCollision => ErrorSeverity::High,
            WagerError::InvalidGameState
            | WagerError::DuplicatePlayer
            | WagerError::InvalidKillCount
            | WagerError::SpawnLimitExceeded => ErrorSeverity::Medium,
            WagerError::PlayerNotFound | WagerError::TeamIsFull | WagerError::InvalidPlayer => {
                ErrorSeverity::Low
            },
            _ => ErrorSeverity::Medium,
        }
    }

    /// Whether this error should trigger an emergency pause.
    pub fn should_emergency_pause(&self) -> (b: bool)
        ensures
            b == self.pauses_game(),
    {
        match self {
            WagerError::GameDataCorruption
            | WagerError::ReplayAttack
            | WagerError::AccountSubstitution
            | WagerError::CircuitBreakerActivated => true,
            _ => false,
        }
    }

    /// Whether the failed operation may be retried.
    pub fn is_retryable(&self) -> (b: bool)
        ensures
            b == self.retry_may_succeed(),
    {
        match self {
            WagerError::ConcurrentOperation
            | WagerError::RateLimitExceeded
            | WagerError::InsufficientVaultFunds
            | WagerError::InvalidGameState => true,
            _ => false,
        }
    }
}

impl ErrorSeverity {
    /// The label used for this severity in logs.
    pub open spec fn label(self) -> Seq<char> {
        match self {
            ErrorSeverity::Critical => "CRITICAL"@,
            ErrorSeverity::High => "HIGH"@,
            ErrorSeverity::Medium => "MEDIUM"@,
            ErrorSeverity::Low => "LOW"@,
        }
    }

    /// The log label of this severity.
    pub fn to_string(&self) -> (s: &'static str)
        ensures
            s@ == self.label(),
    {
        match self {
            ErrorSeverity::Critical => "CRITICAL",
            ErrorSeverity::High => "HIGH",
            ErrorSeverity::Medium => "MEDIUM",
            ErrorSeverity::Low => "LOW",
        }
    }
}

} // verus!
