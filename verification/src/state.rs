//! Game-wide limits, game modes, the session life cycle and checked arithmetic.
use vstd::prelude::*;
use crate::errors::WagerError;

verus! {

/// Most kills one player may be credited with.
pub const MAX_KILLS: u8 = 50;
/// Most spawns one player may hold.
pub const MAX_SPAWNS: u8 = 50;
/// Largest accepted session bet, in token base units.
pub const MAX_BET: u64 = 100_000_000;
/// Smallest accepted session bet, in token base units.
pub const MIN_BET: u64 = 1_000_000;
/// A session may be played for at most one day.
pub const GAME_TIMEOUT_SECONDS: i64 = 24 * 60 * 60;
/// Rate limit on state-changing operations per sixty-second window.
pub const MAX_OPERATIONS_PER_MINUTE: u64 = 60;
/// Most kills plus spawns one player can show.
pub const MAX_TOTAL_ACTIVITY: u64 = (MAX_KILLS as u64) + (MAX_SPAWNS as u64);
/// Fixed-point scale used in the earnings computation.
pub const SCALING_FACTOR: u64 = 1_000_000;

/// Progress of the payout of a finished game.
#[derive(Debug, Clone, Copy, PartialEq, Eq, Structural)]
pub enum DistributionStatus {
    NotStarted,
    InProgress,
    Completed,
    Failed,
}

impl Default for DistributionStatus {
    fn default() -> (d: DistributionStatus)
        ensures
            d == DistributionStatus::NotStarted,
    {
        DistributionStatus::NotStarted
    }
}

/// The six kinds of game: team size and payout style.
#[derive(Debug, Clone, Copy, PartialEq, Eq, Structural)]
pub enum GameMode {
    WinnerTakesAllOneVsOne,
    WinnerTakesAllThreeVsThree,
    WinnerTakesAllFiveVsFive,
    PayToSpawnOneVsOne,
    PayToSpawnThreeVsThree,
    PayToSpawnFiveVsFive,
}

impl GameMode {
    /// Team size of the mode.
    pub open spec fn team_size(self) -> int {
        match self {
            GameMode::WinnerTakesAllOneVsOne | GameMode::PayToSpawnOneVsOne => 1,
            GameMode::WinnerTakesAllThreeVsThree | GameMode::PayToSpawnThreeVsThree => 3,
            GameMode::WinnerTakesAllFiveVsFive | GameMode::PayToSpawnFiveVsFive => 5,
        }
    }

    /// Spawns granted by one purchase; zero for winner-takes-all modes.
    pub open spec fn spawns_per_purchase(self) -> u8 {
        match self {
            GameMode::PayToSpawnOneVsOne => 3,
            GameMode::PayToSpawnThreeVsThree => 5,
            GameMode::PayToSpawnFiveVsFive => 7,
            _ => 0,
        }
    }

    /// Whether players buy extra spawns in this mode.
    pub open spec fn sells_spawns(self) -> bool {
        ||| self == GameMode::PayToSpawnOneVsOne
        ||| self == GameMode::PayToSpawnThreeVsThree
        ||| self == GameMode::PayToSpawnFiveVsFive
    }

    /// Number of players on each team.
    pub fn players_per_team(&self) -> (n: usize)
        ensures
            n == self.team_size(),
            1 <= n <= 5,
    {
        match self {
            GameMode::WinnerTakesAllOneVsOne | GameMode::PayToSpawnOneVsOne => 1,
            GameMode::WinnerTakesAllThreeVsThree | GameMode::PayToSpawnThreeVsThree => 3,
            GameMode::WinnerTakesAllFiveVsFive | GameMode::PayToSpawnFiveVsFive => 5,
        }
    }

    /// Spawns granted by one purchase in this mode.
    pub fn spawn_increment(&self) -> (k: u8)
        ensures
            k == self.spawns_per_purchase(),
    {
        match self {
            GameMode::PayToSpawnOneVsOne => 3,
            GameMode::PayToSpawnThreeVsThree => 5,
            GameMode::PayToSpawnFiveVsFive => 7,
            _ => 0,
        }
    }

    /// Whether this is a pay-to-spawn mode.
    pub fn is_pay_to_spawn(&self) -> (b: bool)
        ensures
            b == self.sells_spawns(),
    {
        match self {
            GameMode::PayToSpawnOneVsOne
            | GameMode::PayToSpawnThreeVsThree
            | GameMode::PayToSpawnFiveVsFive => true,
            _ => false,
        }
    }
}

/// Where a session stands in its life cycle.
#[derive(Debug, Clone, Copy, PartialEq, Eq, Structural)]
pub enum GameStatus {
    WaitingForPlayers,
    InProgress,
    Completed,
    Cancelled,
    Expired,
    EmergencyPaused,
    DistributionInProgress,
    RefundInProgress,
}

impl Default for GameStatus {
    fn default() -> (s: GameStatus)
        ensures
            s == GameStatus::WaitingForPlayers,
    {
        GameStatus::WaitingForPlayers
    }
}

impl GameStatus {
    /// Completed, cancelled and expired sessions are over.
    pub open spec fn is_terminal(self) -> bool {
        ||| self == GameStatus::Completed
        ||| self == GameStatus::Cancelled
        ||| self == GameStatus::Expired
    }

    /// The life-cycle graph: which status may follow which.
    pub open spec fn may_become(self, next: GameStatus) -> bool {
        match (self, next) {
            (GameStatus::WaitingForPlayers, GameStatus::InProgress) => true,
            (GameStatus::WaitingForPlayers, GameStatus::Cancelled) => true,
            (GameStatus::WaitingForPlayers, GameStatus::Expired) => true,
            (GameStatus::WaitingForPlayers, GameStatus::RefundInProgress) => true,
            (GameStatus::InProgress, GameStatus::DistributionInProgress) => true,
            (GameStatus::InProgress, GameStatus::RefundInProgress) => true,
            (GameStatus::InProgress, GameStatus::Cancelled) => true,
            (GameStatus::InProgress, GameStatus::Expired) => true,
            (GameStatus::DistributionInProgress, GameStatus::Completed) => true,
            (GameStatus::DistributionInProgress, GameStatus::Cancelled) => true,
            (GameStatus::RefundInProgress, GameStatus::Cancelled) => true,
            (_, GameStatus::EmergencyPaused) => true,
            (GameStatus::EmergencyPaused, GameStatus::InProgress) => true,
            (GameStatus::EmergencyPaused, GameStatus::Cancelled) => true,
            _ => false,
        }
    }

    /// Players may join only while the session waits for players.
    pub fn allows_joining(&self) -> (b: bool)
        ensures
            b == (*self == GameStatus::WaitingForPlayers),
    {
        match self {
            GameStatus::WaitingForPlayers => true,
            _ => false,
        }
    }

    /// Kills and spawn purchases happen only while the game is in progress.
    pub fn allows_game_operations(&self) -> (b: bool)
        ensures
            b == (*self == GameStatus::InProgress),
    {
        match self {
            GameStatus::InProgress => true,
            _ => false,
        }
    }

    /// Whether the session is over.
    pub fn is_final(&self) -> (b: bool)
        ensures
            b == self.is_terminal(),
    {
        match self {
            GameStatus::Completed | GameStatus::Cancelled | GameStatus::Expired => true,
            _ => false,
        }
    }

    /// Whether winnings are being paid out.
    pub fn is_distributing(&self) -> (b: bool)
        ensures
            b == (*self == GameStatus::DistributionInProgress),
    {
        match self {
            GameStatus::DistributionInProgress => true,
            _ => false,
        }
    }

    /// Whether bets are being refunded.
    pub fn is_refunding(&self) -> (b: bool)
        ensures
            b == (*self == GameStatus::RefundInProgress),
    {
        match self {
            GameStatus::RefundInProgress => true,
            _ => false,
        }
    }

    /// Whether the life cycle allows moving from this status to `new_status`.
    pub fn can_transition_to(&self, new_status: &GameStatus) -> (b: bool)
        ensures
            b == self.may_become(*new_status),
    {
        match (self, new_status) {
            (GameStatus::WaitingForPlayers, GameStatus::InProgress) => true,
            (GameStatus::WaitingForPlayers, GameStatus::Cancelled) => true,
            (GameStatus::WaitingForPlayers, GameStatus::Expired) => true,
            (GameStatus::WaitingForPlayers, GameStatus::RefundInProgress) => true,
            (GameStatus::InProgress, GameStatus::DistributionInProgress) => true,
            (GameStatus::InProgress, GameStatus::RefundInProgress) => true,
            (GameStatus::InProgress, GameStatus::Cancelled) => true,
            (GameStatus::InProgress, GameStatus::Expired) => true,
            (GameStatus::DistributionInProgress, GameStatus::Completed) => true,
            (GameStatus::DistributionInProgress, GameStatus::Cancelled) => true,
            (GameStatus::RefundInProgress, GameStatus::Cancelled) => true,
            (_, GameStatus::EmergencyPaused) => true,
            (GameStatus::EmergencyPaused, GameStatus::InProgress) => true,
            (GameStatus::EmergencyPaused, GameStatus::Cancelled) => true,
            _ => false,
        }
    }
}

/// The value `a.saturating_add(b)` takes for bytes.
pub open spec fn saturating_byte_sum(a: u8, b: u8) -> u8 {
    if a + b <= u8::MAX { (a + b) as u8 } else { u8::MAX }
}

/// The outcome of a bounded byte addition: both operands and the
/// (saturating) sum must stay within `max_allowed`.
pub open spec fn bounded_byte_sum(a: u8, b: u8, max_allowed: u8) -> Result<u8, WagerError> {
    if a <= max_allowed && b <= max_allowed && saturating_byte_sum(a, b) <= max_allowed {
        Ok(saturating_byte_sum(a, b))
    } else {
        Err(WagerError::ArithmeticError)
    }
}

/// Adds two counters, refusing operands or a sum above `max_allowed`.
pub fn safe_add_u8(a: u8, b: u8, max_allowed: u8) -> (r: Result<u8, WagerError>)
    ensures
        r == bounded_byte_sum(a, b, max_allowed),
{
    if !(a <= max_allowed && b <= max_allowed) {
        return Err(WagerError::ArithmeticError);
    }
    let result = a.saturating_add(b);
    if !(result <= max_allowed) {
        return Err(WagerError::ArithmeticError);
    }
    Ok(result)
}

/// Sum of two amounts, or `ArithmeticError` when it does not fit in 64 bits.
pub fn safe_add_u64(a: u64, b: u64) -> (r: Result<u64, WagerError>)
    ensures
        a + b <= u64::MAX ==> r == Ok::<u64, WagerError>((a + b) as u64),
        a + b > u64::MAX ==> r == Err::<u64, WagerError>(WagerError::ArithmeticError),
{
    match a.checked_add(b) {
        Some(v) => Ok(v),
        None => Err(WagerError::ArithmeticError),
    }
}

/// Product of two amounts, or `ArithmeticError` when it does not fit in 64 bits.
pub fn safe_mul_u64(a: u64, b: u64) -> (r: Result<u64, WagerError>)
    ensures
        a * b <= u64::MAX ==> r == Ok::<u64, WagerError>((a * b) as u64),
        a * b > u64::MAX ==> r == Err::<u64, WagerError>(WagerError::ArithmeticError),
{
    match a.checked_mul(b) {
        Some(v) => Ok(v),
        None => Err(WagerError::ArithmeticError),
    }
}

/// Integer quotient, or `ArithmeticError` for a zero divisor.
pub fn safe_div_u64(a: u64, b: u64) -> (r: Result<u64, WagerError>)
    ensures
        b > 0 ==> r == Ok::<u64, WagerError>(a / b),
        b == 0 ==> r == Err::<u64, WagerError>(WagerError::ArithmeticError),
{
    if !(b > 0) {
        return Err(WagerError::ArithmeticError);
    }
    Ok(a / b)
}

} // verus!
