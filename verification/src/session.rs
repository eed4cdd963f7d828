//! A game session: two teams, a life-cycle status guarded by a nonce and an
//! operation lock, rate limiting, and the per-player scoring rules.
use vstd::prelude::*;
use vstd::utf8::encode_utf8;
use crate::errors::WagerError;
use crate::pubkey::Pubkey;
use crate::state::{
    bounded_byte_sum, safe_add_u64, safe_add_u8, safe_div_u64, safe_mul_u64, DistributionStatus,
    GameMode, GameStatus, GAME_TIMEOUT_SECONDS, MAX_BET, MAX_KILLS, MAX_OPERATIONS_PER_MINUTE,
    MAX_SPAWNS, MAX_TOTAL_ACTIVITY, MIN_BET, SCALING_FACTOR,
};
use crate::team::{position_of, lemma_position_of, Team, TeamView, STARTING_SPAWNS};
use crate::text::{chars_of, contains_str, contains_text, id_char, is_id_char};
use crate::utils::{generate_session_hash, session_hash};

verus! {

/// Length of the window, in seconds, over which operations are rate limited.
pub const RATE_WINDOW_SECONDS: i64 = 60;

/// The on-chain record of one game.
pub struct GameSession {
    pub session_id: String,
    pub authority: Pubkey,
    pub session_bet: u64,
    pub game_mode: GameMode,
    pub team_a: Team,
    pub team_b: Team,
    pub status: GameStatus,
    pub created_at: i64,
    pub bump: u8,
    pub vault_bump: u8,
    pub nonce: u64,
    pub last_operation: i64,
    pub session_hash: [u8; 32],
    pub operation_count: u64,
    pub last_operation_window: i64,
    pub operations_in_window: u64,
    pub distribution_status: DistributionStatus,
    pub distribution_started_at: i64,
    pub distribution_nonce: u64,
    pub last_distribution_attempt: i64,
    pub current_operation: Option<String>,
    pub operation_started_at: i64,
    pub locked: bool,
}

/// The mathematical content of a session.
#[verifier::ext_equal]
pub struct SessionView {
    pub session_id: Seq<char>,
    pub authority: Pubkey,
    pub session_bet: u64,
    pub game_mode: GameMode,
    pub team_a: TeamView,
    pub team_b: TeamView,
    pub status: GameStatus,
    pub created_at: i64,
    pub bump: u8,
    pub vault_bump: u8,
    pub nonce: u64,
    pub last_operation: i64,
    pub session_hash: Seq<u8>,
    pub operation_count: u64,
    pub last_operation_window: i64,
    pub operations_in_window: u64,
    pub distribution_status: DistributionStatus,
    pub distribution_started_at: i64,
    pub distribution_nonce: u64,
    pub last_distribution_attempt: i64,
    pub current_operation: Option<Seq<char>>,
    pub operation_started_at: i64,
    pub locked: bool,
}

/// The statuses of long-running phases, entered with the operation lock
/// kept: play, distribution and refund.
pub open spec fn keeps_lock(status: GameStatus) -> bool {
    status == GameStatus::InProgress || status == GameStatus::DistributionInProgress || status
        == GameStatus::RefundInProgress
}

/// The text of an optional label.
pub open spec fn label_text(label: Option<&str>) -> Option<Seq<char>> {
    match label {
        Some(s) => Some(s@),
        None => None,
    }
}

impl View for GameSession {
    type V = SessionView;

    open spec fn view(&self) -> SessionView {
        SessionView {
            session_id: self.session_id@,
            authority: self.authority,
            session_bet: self.session_bet,
            game_mode: self.game_mode,
            team_a: self.team_a@,
            team_b: self.team_b@,
            status: self.status,
            created_at: self.created_at,
            bump: self.bump,
            vault_bump: self.vault_bump,
            nonce: self.nonce,
            last_operation: self.last_operation,
            session_hash: self.session_hash@,
            operation_count: self.operation_count,
            last_operation_window: self.last_operation_window,
            operations_in_window: self.operations_in_window,
            distribution_status: self.distribution_status,
            distribution_started_at: self.distribution_started_at,
            distribution_nonce: self.distribution_nonce,
            last_distribution_attempt: self.last_distribution_attempt,
            current_operation: match self.current_operation {
                Some(s) => Some(s@),
                None => None,
            },
            operation_started_at: self.operation_started_at,
            locked: self.locked,
        }
    }
}

/// Every stored session has five slots per team.
pub proof fn lemma_view_well_formed(g: &GameSession)
    ensures
        g@.well_formed(),
{
}

impl SessionView {
    /// Both teams have their five slots, as every stored session does.
    pub open spec fn well_formed(self) -> bool {
        self.team_a.well_formed() && self.team_b.well_formed()
    }

    /// The rate window's start is far enough from the end of time that
    /// `start + 60` can be computed.
    pub open spec fn window_fits(self) -> bool {
        self.last_operation_window <= i64::MAX - RATE_WINDOW_SECONDS
    }

    /// The same session with the operation lock released.
    pub open spec fn released(self) -> SessionView {
        SessionView { locked: false, current_operation: None, operation_started_at: 0, ..self }
    }

    /// One operation counted against the rate limit at time `now`: a new
    /// window opens once 60 seconds have passed since the current one
    /// began, and at most `MAX_OPERATIONS_PER_MINUTE` operations fit in a
    /// window.
    pub open spec fn rate_limited(self, now: i64) -> (SessionView, Result<(), WagerError>) {
        let s = if now >= self.last_operation_window + RATE_WINDOW_SECONDS {
            SessionView { last_operation_window: now, operations_in_window: 0, ..self }
        } else {
            self
        };
        if s.operations_in_window < MAX_OPERATIONS_PER_MINUTE {
            (SessionView { operations_in_window: (s.operations_in_window + 1) as u64, ..s }, Ok(()))
        } else {
            (s, Err(WagerError::RateLimitExceeded))
        }
    }

    /// Bookkeeping after a state change at time `now`: rate limit, then
    /// nonce and operation count advance and the time is recorded.
    pub open spec fn bookkept(self, now: i64) -> (SessionView, Result<(), WagerError>) {
        let (s, r) = self.rate_limited(now);
        if r is Err {
            (s, r)
        } else if s.nonce == u64::MAX {
            (s, Err(WagerError::ArithmeticError))
        } else if s.operation_count == u64::MAX {
            (SessionView { nonce: (s.nonce + 1) as u64, ..s }, Err(WagerError::ArithmeticError))
        } else {
            (
                SessionView {
                    nonce: (s.nonce + 1) as u64,
                    operation_count: (s.operation_count + 1) as u64,
                    last_operation: now,
                    ..s
                },
                Ok(()),
            )
        }
    }

    /// Distribution bookkeeping when the status becomes `new_status`.
    pub open spec fn distribution_recorded(self, new_status: GameStatus, now: i64) -> (
        SessionView,
        Result<(), WagerError>,
    ) {
        if new_status == GameStatus::DistributionInProgress {
            let s = SessionView {
                distribution_status: DistributionStatus::InProgress,
                distribution_started_at: now,
                ..self
            };
            if s.distribution_nonce == u64::MAX {
                (s, Err(WagerError::ArithmeticError))
            } else {
                (SessionView { distribution_nonce: (s.distribution_nonce + 1) as u64, ..s }, Ok(()))
            }
        } else if new_status == GameStatus::Completed
            && self.distribution_status == DistributionStatus::InProgress {
            (SessionView { distribution_status: DistributionStatus::Completed, ..self }.released(), Ok(()))
        } else if (new_status == GameStatus::Cancelled || new_status == GameStatus::Expired)
            && self.distribution_status == DistributionStatus::InProgress {
            (SessionView { distribution_status: DistributionStatus::Failed, ..self }.released(), Ok(()))
        } else {
            (self, Ok(()))
        }
    }

    /// The second half of a compare-and-swap, once the lock is taken and the
    /// expected status and nonce matched.
    pub open spec fn swap_committed(self, new_status: GameStatus, now: i64) -> (
        SessionView,
        Result<bool, WagerError>,
    ) {
        if !self.status.may_become(new_status) {
            (self, Err(WagerError::InvalidGameState))
        } else if self.nonce == u64::MAX {
            (SessionView { status: new_status, ..self }, Err(WagerError::ArithmeticError))
        } else {
            let s = SessionView { status: new_status, nonce: (self.nonce + 1) as u64, last_operation: now, ..self };
            let (d, rd) = s.distribution_recorded(new_status, now);
            if rd is Err {
                (d, Err(WagerError::ArithmeticError))
            } else if d.operation_count == u64::MAX {
                (d, Err(WagerError::ArithmeticError))
            } else {
                let c = SessionView { operation_count: (d.operation_count + 1) as u64, ..d };
                let (e, re) = c.rate_limited(now);
                if re is Err {
                    (e, Err(WagerError::RateLimitExceeded))
                } else if keeps_lock(new_status) {
                    (e, Ok(true))
                } else {
                    (e.released(), Ok(true))
                }
            }
        }
    }

    /// Compare-and-swap of the status: refused while the lock is held;
    /// otherwise the lock is taken, and if the status and nonce are the
    /// expected ones the life cycle is advanced (`Ok(true)`), else the lock
    /// is released again (`Ok(false)`).
    pub open spec fn swapped(
        self,
        expected_status: GameStatus,
        expected_nonce: u64,
        new_status: GameStatus,
        label: Option<Seq<char>>,
        now: i64,
    ) -> (SessionView, Result<bool, WagerError>) {
        if self.locked {
            (self, Err(WagerError::ConcurrentOperation))
        } else {
            let held = SessionView { locked: true, current_operation: label, operation_started_at: now, ..self };
            if self.status != expected_status || self.nonce != expected_nonce {
                (held.released(), Ok(false))
            } else {
                held.swap_committed(new_status, now)
            }
        }
    }
    /// Number of players per team in this session's mode.
    pub open spec fn team_size(self) -> int {
        self.game_mode.team_size()
    }

    /// Team 0 is team A; any other number names team B.
    pub open spec fn team_of(self, team: u8) -> TeamView {
        if team == 0 {
            self.team_a
        } else {
            self.team_b
        }
    }

    /// The same session with `team` (0 or 1) replaced.
    pub open spec fn with_team(self, team: u8, t: TeamView) -> SessionView {
        if team == 0 {
            SessionView { team_a: t, ..self }
        } else {
            SessionView { team_b: t, ..self }
        }
    }

    /// The slot of `player` on `team`: the first slot holding that key.
    pub open spec fn slot_of(self, team: u8, player: Pubkey) -> Result<int, WagerError> {
        if team > 1 {
            Err(WagerError::InvalidTeam)
        } else {
            match position_of(self.team_of(team).players, self.team_size(), player) {
                Some(i) => Ok(i),
                None => Err(WagerError::PlayerNotFound),
            }
        }
    }

    /// Both teams are full and nobody plays on both sides.
    pub open spec fn all_filled(self) -> Result<bool, WagerError> {
        let n = self.team_size();
        if exists|i: int|
            #![trigger self.team_a.players[i]]
            #![trigger self.team_b.players[i]]
            0 <= i < n && (self.team_a.players[i] == Pubkey::zero() || self.team_b.players[i] == Pubkey::zero()) {
            Ok(false)
        } else if exists|i: int, j: int|
            #![trigger self.team_a.players[i], self.team_b.players[j]]
            0 <= i < n && 0 <= j < n && self.team_a.players[i] == self.team_b.players[j] {
            Err(WagerError::DuplicatePlayer)
        } else {
            Ok(true)
        }
    }

    /// Strict check: each team's composition is valid and nobody plays on
    /// both sides.
    pub open spec fn all_filled_strict(self) -> Result<bool, WagerError> {
        let n = self.team_size();
        match self.team_a.composition_check(n) {
            Err(e) => Err(e),
            Ok(_) => match self.team_b.composition_check(n) {
                Err(e) => Err(e),
                Ok(_) => if exists|i: int, j: int|
                    0 <= i < n && 0 <= j < n && #[trigger] self.team_a.players[i] != Pubkey::zero()
                        && #[trigger] self.team_b.players[j] == self.team_a.players[i] {
                    Err(WagerError::DuplicatePlayer)
                } else {
                    Ok(true)
                },
            },
        }
    }

    /// Kills and spawns of `player`, looked up on team A first.
    pub open spec fn stats_of(self, player: Pubkey) -> Option<(u8, u8)> {
        let n = self.team_size();
        match position_of(self.team_a.players, n, player) {
            Some(i) => Some((self.team_a.player_kills[i], self.team_a.player_spawns[i])),
            None => match position_of(self.team_b.players, n, player) {
                Some(i) => Some((self.team_b.player_kills[i], self.team_b.player_spawns[i])),
                None => None,
            },
        }
    }

    /// A player's earnings: a tenth of the bet per kill or spawn held.
    pub open spec fn earnings_of(self, player: Pubkey) -> Result<u64, WagerError> {
        if player == Pubkey::zero() {
            Err(WagerError::InvalidPlayer)
        } else {
            match self.stats_of(player) {
                None => Err(WagerError::PlayerNotFound),
                Some((kills, spawns)) => payout_for(kills, spawns, self.session_bet),
            }
        }
    }

    /// A player's kills plus spawns.
    pub open spec fn activity_of(self, player: Pubkey) -> Result<u16, WagerError> {
        if player == Pubkey::zero() {
            Err(WagerError::InvalidPlayer)
        } else {
            match self.stats_of(player) {
                None => Err(WagerError::PlayerNotFound),
                Some((kills, spawns)) => if kills <= MAX_KILLS && spawns <= MAX_SPAWNS {
                    Ok((kills + spawns) as u16)
                } else {
                    Err(WagerError::InvalidKillCount)
                },
            }
        }
    }

    /// The status moved to `new_status` by the legacy transition rules,
    /// then the operation recorded.
    pub open spec fn status_changed(self, new_status: GameStatus, now: i64) -> (
        SessionView,
        Result<(), WagerError>,
    ) {
        let moved = SessionView { status: new_status, ..self };
        if self.status == GameStatus::WaitingForPlayers && new_status == GameStatus::InProgress {
            match self.all_filled() {
                Err(e) => (self, Err(e)),
                Ok(false) => (self, Err(WagerError::NotAllPlayersJoined)),
                Ok(true) => moved.bookkept(now),
            }
        } else if self.status == GameStatus::InProgress && new_status == GameStatus::Completed {
            moved.bookkept(now)
        } else if new_status == GameStatus::Cancelled {
            moved.bookkept(now)
        } else if self.status.is_terminal() {
            (self, Err(WagerError::InvalidGameState))
        } else {
            moved.bookkept(now)
        }
    }

    /// A kill by `killer` of team `killer_team` on `victim` of the other
    /// team: the killer gains a kill, the victim loses a spawn.
    pub open spec fn kill_recorded(
        self,
        killer_team: u8,
        killer: Pubkey,
        victim_team: u8,
        victim: Pubkey,
        now: i64,
    ) -> (SessionView, Result<(), WagerError>) {
        if self.status != GameStatus::InProgress {
            (self, Err(WagerError::GameNotInProgress))
        } else if !(killer_team != victim_team && killer_team <= 1 && victim_team <= 1) {
            (self, Err(WagerError::InvalidTeam))
        } else if !(killer != victim && killer != Pubkey::zero() && victim != Pubkey::zero()) {
            (self, Err(WagerError::InvalidKillTarget))
        } else {
            match self.slot_of(killer_team, killer) {
                Err(e) => (self, Err(e)),
                Ok(ki) => match self.slot_of(victim_team, victim) {
                    Err(e) => (self, Err(e)),
                    Ok(vi) => {
                        let kt = self.team_of(killer_team);
                        let vt = self.team_of(victim_team);
                        let spawns = vt.player_spawns[vi];
                        let kills = kt.player_kills[ki];
                        if spawns == 0 {
                            (self, Err(WagerError::PlayerHasNoSpawns))
                        } else if kills >= MAX_KILLS {
                            (self, Err(WagerError::InvalidKillCount))
                        } else {
                            let s = self.with_team(
                                killer_team,
                                TeamView { player_kills: kt.player_kills.update(ki, (kills + 1) as u8), ..kt },
                            ).with_team(
                                victim_team,
                                TeamView { player_spawns: vt.player_spawns.update(vi, (spawns - 1) as u8), ..vt },
                            );
                            s.bookkept(now)
                        }
                    },
                },
            }
        }
    }

    /// One spawn purchase for the player in slot `player_index` of `team`.
    pub open spec fn spawns_added(self, team: u8, player_index: int, now: i64) -> (
        SessionView,
        Result<(), WagerError>,
    ) {
        if !self.game_mode.sells_spawns() {
            (self, Err(WagerError::InvalidGameModeForOperation))
        } else if team > 1 {
            (self, Err(WagerError::InvalidTeam))
        } else if !(0 <= player_index < self.team_size()) {
            (self, Err(WagerError::PlayerIndexOutOfBounds))
        } else if self.game_mode.spawns_per_purchase() == 0 {
            (self, Err(WagerError::InvalidSpawnIncrement))
        } else {
            let t = self.team_of(team);
            match bounded_byte_sum(t.player_spawns[player_index], self.game_mode.spawns_per_purchase(), MAX_SPAWNS) {
                Err(e) => (self, Err(e)),
                Ok(v) => self.with_team(
                    team,
                    TeamView { player_spawns: t.player_spawns.update(player_index, v), ..t },
                ).bookkept(now),
            }
        }
    }

    /// Whether `player` has already joined, refusing a player on both teams.
    pub open spec fn joined(self, player: Pubkey) -> Result<bool, WagerError> {
        let n = self.team_size();
        if player == Pubkey::zero() {
            Err(WagerError::InvalidPlayer)
        } else if self.team_a.has_player(player, n) && self.team_b.has_player(player, n) {
            Err(WagerError::DuplicatePlayer)
        } else {
            Ok(self.team_a.has_player(player, n) || self.team_b.has_player(player, n))
        }
    }

    /// The first empty slot of `team`.
    pub open spec fn open_slot(self, team: u8) -> Result<int, WagerError> {
        if team > 1 {
            Err(WagerError::InvalidTeam)
        } else {
            match position_of(self.team_of(team).players, self.team_size(), Pubkey::zero()) {
                Some(i) => Ok(i),
                None => Err(WagerError::TeamIsFull),
            }
        }
    }

    /// Whether a payout may begin now.
    pub open spec fn distribution_startable(self) -> Result<bool, WagerError> {
        if self.status != GameStatus::InProgress {
            Ok(false)
        } else if self.distribution_status != DistributionStatus::NotStarted {
            Ok(false)
        } else if self.current_operation is Some || self.locked {
            Ok(false)
        } else {
            self.all_filled_strict()
        }
    }

    /// How long, in seconds, a lock under the current operation is honoured:
    /// five minutes for distributions and refunds, two otherwise.
    pub open spec fn lock_timeout(self) -> int {
        match self.current_operation {
            Some(op) => if contains_text(op, "distribution"@) || contains_text(op, "refund"@) {
                300
            } else {
                120
            },
            None => 120,
        }
    }

    /// The authority clears a lock that is free or has timed out.
    pub open spec fn lock_cleared(self, authority: Pubkey, now: i64) -> (
        SessionView,
        Result<(), WagerError>,
    ) {
        if self.authority != authority {
            (self, Err(WagerError::UnauthorizedDistribution))
        } else if self.locked && now - self.operation_started_at < self.lock_timeout() {
            (self, Err(WagerError::ConcurrentOperation))
        } else {
            (self.released(), Ok(()))
        }
    }

    /// Consistency of the stored record, given the hash it should carry.
    pub open spec fn integrity(self, expected_hash: Seq<u8>) -> Result<(), WagerError> {
        if !(self.session_id.len() > 0 && encode_utf8(self.session_id).len() <= 32) {
            Err(WagerError::InvalidSessionId)
        } else if self.authority == Pubkey::zero() {
            Err(WagerError::AuthorityMismatch)
        } else if !(MIN_BET <= self.session_bet <= MAX_BET) {
            Err(WagerError::InvalidBetAmount)
        } else if !(self.created_at > 0 && self.last_operation >= self.created_at) {
            Err(WagerError::InvalidTimestamp)
        } else if self.session_hash != expected_hash {
            Err(WagerError::SessionIdCollision)
        } else if self.locked && self.current_operation is None {
            Err(WagerError::GameDataCorruption)
        } else {
            Ok(())
        }
    }
}

/// A team before anyone joins: empty slots, starting spawns, no kills.
pub open spec fn fresh_team() -> TeamView {
    TeamView {
        players: Seq::new(5, |i: int| Pubkey::zero()),
        total_bet: 0,
        player_spawns: Seq::new(5, |i: int| STARTING_SPAWNS),
        player_kills: Seq::new(5, |i: int| 0u8),
    }
}

/// The earnings for `kills` and `spawns` at bet `bet`: the activity scaled
/// by a million, times the bet, divided by ten million.
pub open spec fn payout_for(kills: u8, spawns: u8, bet: u64) -> Result<u64, WagerError> {
    if !(kills <= MAX_KILLS && spawns <= MAX_SPAWNS) {
        Err(WagerError::InvalidKillCount)
    } else {
        let gross = (kills + spawns) * SCALING_FACTOR * bet;
        if gross > u64::MAX {
            Err(WagerError::ArithmeticError)
        } else if gross / (SCALING_FACTOR * 10) as int > MAX_TOTAL_ACTIVITY * MAX_BET {
            Err(WagerError::ValueTooLarge)
        } else {
            Ok((gross / (SCALING_FACTOR * 10) as int) as u64)
        }
    }
}

/// A session identifier acceptable to `initialize`: 12 to 32 bytes of
/// ASCII letters, digits, `_` and `-`.
pub open spec fn initial_id_ok(id: Seq<char>) -> bool {
    &&& 12 <= encode_utf8(id).len() <= 32
    &&& forall|i: int| 0 <= i < id.len() ==> is_id_char(#[trigger] id[i])
}

/// The freshly initialized session.
pub open spec fn initial_session(
    id: Seq<char>,
    authority: Pubkey,
    bet: u64,
    mode: GameMode,
    bump: u8,
    vault_bump: u8,
    now: i64,
    nonce: u64,
    hash: Seq<u8>,
) -> SessionView {
    SessionView {
        session_id: id,
        authority: authority,
        session_bet: bet,
        game_mode: mode,
        team_a: fresh_team(),
        team_b: fresh_team(),
        status: GameStatus::WaitingForPlayers,
        created_at: now,
        bump: bump,
        vault_bump: vault_bump,
        nonce: nonce,
        last_operation: now,
        session_hash: hash,
        operation_count: 0,
        last_operation_window: now,
        operations_in_window: 0,
        distribution_status: DistributionStatus::NotStarted,
        distribution_started_at: 0,
        distribution_nonce: 0,
        last_distribution_attempt: 0,
        current_operation: None,
        operation_started_at: 0,
        locked: false,
    }
}

/// The roster of the first `n` slots: team A's player then team B's
/// player for each slot, skipping empty ones.
pub open spec fn roster(a: Seq<Pubkey>, b: Seq<Pubkey>, n: int) -> Seq<Pubkey>
    decreases n,
{
    if n <= 0 {
        Seq::empty()
    } else {
        let r = roster(a, b, n - 1);
        let r1 = if a[n - 1] != Pubkey::zero() {
            r.push(a[n - 1])
        } else {
            r
        };
        if b[n - 1] != Pubkey::zero() {
            r1.push(b[n - 1])
        } else {
            r1
        }
    }
}

/// The roster lists at most two players per slot.
pub proof fn lemma_roster_len(a: Seq<Pubkey>, b: Seq<Pubkey>, n: int)
    requires
        0 <= n,
    ensures
        roster(a, b, n).len() <= 2 * n,
    decreases n,
{
    if n > 0 {
        lemma_roster_len(a, b, n - 1);
    }
}

/// Whether two 32-byte strings are equal.
fn same_bytes(x: &[u8; 32], y: &[u8; 32]) -> (b: bool)
    ensures
        b == (x@ == y@),
{
    for i in 0..32
        invariant
            forall|k: int| 0 <= k < i ==> x@[k] == y@[k],
    {
        if x[i] != y[i] {
            assert(x@[i as int] != y@[i as int]);
            return false;
        }
    }
    assert(x@ =~= y@);
    true
}

impl GameSession {
    /// Bytes an account of this type occupies.
    pub const MAX_SIZE: usize = 8 + 4 + 32 + 32 + 8 + 1 + (32 * 5 + 8 + 5 + 5) + (32 * 5 + 8 + 5 + 5)
        + 1 + 8 + 1 + 1 + 8 + 8 + 32 + 8 + 8 + 8 + 1 + 8 + 8 + 8 + 4 + 32 + 8 + 1;

    fn release_lock(&mut self)
        ensures
            final(self)@ == old(self)@.released(),
    {
        self.locked = false;
        self.current_operation = None;
        self.operation_started_at = 0;
    }

    /// Counts one operation against the rate limit at time `now`.
    pub fn check_rate_limit(&mut self, now: i64) -> (r: Result<(), WagerError>)
        requires
            old(self)@.window_fits(),
        ensures
            (final(self)@, r) == old(self)@.rate_limited(now),
    {
        if now >= self.last_operation_window + RATE_WINDOW_SECONDS {
            self.last_operation_window = now;
            self.operations_in_window = 0;
        }
        if !(self.operations_in_window < MAX_OPERATIONS_PER_MINUTE) {
            return Err(WagerError::RateLimitExceeded);
        }
        self.operations_in_window = self.operations_in_window + 1;
        Ok(())
    }

    /// Records a state-changing operation at time `now`: rate limit, nonce,
    /// operation count and time of the last operation.
    pub fn update_operation_tracking(&mut self, now: i64) -> (r: Result<(), WagerError>)
        requires
            old(self)@.window_fits(),
        ensures
            (final(self)@, r) == old(self)@.bookkept(now),
    {
        self.check_rate_limit(now)?;
        self.nonce = safe_add_u64(self.nonce, 1)?;
        self.operation_count = safe_add_u64(self.operation_count, 1)?;
        self.last_operation = now;
        Ok(())
    }

    /// Atomically moves the status from `expected_status` to `new_status`
    /// provided the nonce is `expected_nonce` and no operation holds the
    /// lock. Long-running statuses (play, distribution, refund) keep the
    /// lock held under `operation_type`.
    pub fn compare_and_swap_status(
        &mut self,
        expected_status: GameStatus,
        expected_nonce: u64,
        new_status: GameStatus,
        operation_type: Option<&str>,
        now: i64,
    ) -> (r: Result<bool, WagerError>)
        requires
            old(self)@.window_fits(),
        ensures
            (final(self)@, r) == old(self)@.swapped(
                expected_status,
                expected_nonce,
                new_status,
                label_text(operation_type),
                now,
            ),
    {
        if self.locked {
            return Err(WagerError::ConcurrentOperation);
        }
        self.locked = true;
        self.current_operation = match operation_type {
            Some(s) => Some(s.to_owned()),
            None => None,
        };
        self.operation_started_at = now;
        if self.status != expected_status || self.nonce != expected_nonce {
            self.release_lock();
            return Ok(false);
        }
        if !self.status.can_transition_to(&new_status) {
            return Err(WagerError::InvalidGameState);
        }
        self.status = new_status;
        self.nonce = match self.nonce.checked_add(1) {
            Some(v) => v,
            None => {
                return Err(WagerError::ArithmeticError);
            },
        };
        self.last_operation = now;
        match new_status {
            GameStatus::DistributionInProgress => {
                self.distribution_status = DistributionStatus::InProgress;
                self.distribution_started_at = now;
                self.distribution_nonce = match self.distribution_nonce.checked_add(1) {
                    Some(v) => v,
                    None => {
                        return Err(WagerError::ArithmeticError);
                    },
                };
            },
            GameStatus::Completed => {
                if self.distribution_status == DistributionStatus::InProgress {
                    self.distribution_status = DistributionStatus::Completed;
                    self.release_lock();
                }
            },
            GameStatus::Cancelled | GameStatus::Expired => {
                if self.distribution_status == DistributionStatus::InProgress {
                    self.distribution_status = DistributionStatus::Failed;
                    self.release_lock();
                }
            },
            _ => {},
        }
        self.operation_count = match self.operation_count.checked_add(1) {
            Some(v) => v,
            None => {
                return Err(WagerError::ArithmeticError);
            },
        };
        self.check_rate_limit(now)?;
        match new_status {
            GameStatus::InProgress | GameStatus::DistributionInProgress | GameStatus::RefundInProgress => {},
            _ => {
                self.release_lock();
            },
        }
        Ok(true)
    }
    /// Moves the status to `new_status` provided the nonce is still
    /// `expected_nonce`; a stale nonce is reported as a concurrent operation.
    pub fn atomic_status_transition(&mut self, new_status: GameStatus, expected_nonce: u64, now: i64) -> (r: Result<(), WagerError>)
        requires
            old(self)@.window_fits(),
        ensures
            ({
                let (s, c) = old(self)@.swapped(old(self).status, expected_nonce, new_status, Some("legacy_transition"@), now);
                &&& final(self)@ == s
                &&& match c {
                    Ok(true) => r == Ok::<(), WagerError>(()),
                    Ok(false) => r == Err::<(), WagerError>(WagerError::ConcurrentOperation),
                    Err(e) => r == Err::<(), WagerError>(e),
                }
            }),
    {
        let current_status = self.status;
        let success = self.compare_and_swap_status(current_status, expected_nonce, new_status, Some("legacy_transition"), now)?;
        if !success {
            return Err(WagerError::ConcurrentOperation);
        }
        Ok(())
    }

    /// Marks the payout as finished and the session as completed.
    pub fn mark_distribution_completed(&mut self, now: i64) -> (r: Result<(), WagerError>)
        ensures
            old(self).status == GameStatus::DistributionInProgress || old(self).status == GameStatus::Completed
                ==> r is Ok && final(self)@ == (SessionView {
                    current_operation: None,
                    locked: false,
                    distribution_status: DistributionStatus::Completed,
                    status: GameStatus::Completed,
                    last_operation: now,
                    ..old(self)@
                }),
            !(old(self).status == GameStatus::DistributionInProgress || old(self).status == GameStatus::Completed)
                ==> r == Err::<(), WagerError>(WagerError::InvalidGameState) && final(self)@ == old(self)@,
    {
        match self.status {
            GameStatus::DistributionInProgress | GameStatus::Completed => {},
            _ => {
                return Err(WagerError::InvalidGameState);
            },
        }
        self.current_operation = None;
        self.locked = false;
        self.distribution_status = DistributionStatus::Completed;
        if self.status != GameStatus::Completed {
            self.status = GameStatus::Completed;
        }
        self.last_operation = now;
        Ok(())
    }

    /// Marks the payout as failed and cancels the session.
    pub fn mark_distribution_failed(&mut self, now: i64) -> (r: Result<(), WagerError>)
        ensures
            r is Ok,
            final(self)@ == (SessionView {
                current_operation: None,
                locked: false,
                distribution_status: DistributionStatus::Failed,
                last_distribution_attempt: now,
                status: GameStatus::Cancelled,
                last_operation: now,
                ..old(self)@
            }),
    {
        self.current_operation = None;
        self.locked = false;
        self.distribution_status = DistributionStatus::Failed;
        self.last_distribution_attempt = now;
        self.status = GameStatus::Cancelled;
        self.last_operation = now;
        Ok(())
    }

    /// Marks a refund as finished: the session ends cancelled.
    pub fn mark_refund_completed(&mut self, now: i64) -> (r: Result<(), WagerError>)
        ensures
            old(self).status == GameStatus::RefundInProgress ==> r is Ok && final(self)@ == (SessionView {
                current_operation: None,
                locked: false,
                status: GameStatus::Cancelled,
                last_operation: now,
                ..old(self)@
            }),
            old(self).status != GameStatus::RefundInProgress ==> r == Err::<(), WagerError>(WagerError::InvalidGameState)
                && final(self)@ == old(self)@,
    {
        match self.status {
            GameStatus::RefundInProgress => {},
            _ => {
                return Err(WagerError::InvalidGameState);
            },
        }
        self.current_operation = None;
        self.locked = false;
        self.status = GameStatus::Cancelled;
        self.last_operation = now;
        Ok(())
    }

    /// Records a failed refund attempt: the lock is dropped, the status kept.
    pub fn mark_refund_failed(&mut self, now: i64) -> (r: Result<(), WagerError>)
        ensures
            r is Ok,
            final(self)@ == (SessionView { current_operation: None, locked: false, last_operation: now, ..old(self)@ }),
    {
        self.current_operation = None;
        self.locked = false;
        self.last_operation = now;
        Ok(())
    }

    /// Refuses sessions older than `GAME_TIMEOUT_SECONDS` at time `now`.
    pub fn validate_not_expired(&self, now: i64) -> (r: Result<(), WagerError>)
        ensures
            now - self.created_at <= GAME_TIMEOUT_SECONDS ==> r == Ok::<(), WagerError>(()),
            now - self.created_at > GAME_TIMEOUT_SECONDS ==> r == Err::<(), WagerError>(WagerError::GameTimeout),
    {
        let game_age: i128 = now as i128 - self.created_at as i128;
        if !(game_age <= GAME_TIMEOUT_SECONDS as i128) {
            return Err(WagerError::GameTimeout);
        }
        Ok(())
    }

    /// Same as `validate_not_expired`.
    pub fn validate_not_expired_safe(&self, now: i64) -> (r: Result<(), WagerError>)
        ensures
            now - self.created_at <= GAME_TIMEOUT_SECONDS ==> r == Ok::<(), WagerError>(()),
            now - self.created_at > GAME_TIMEOUT_SECONDS ==> r == Err::<(), WagerError>(WagerError::GameTimeout),
    {
        self.validate_not_expired(now)
    }

    /// Whether both teams are full; an error if one player is on both.
    pub fn check_all_filled(&self) -> (r: Result<bool, WagerError>)
        ensures
            r == self@.all_filled(),
    {
        let player_count = self.game_mode.players_per_team();
        let a = self.team_a.players;
        let b = self.team_b.players;
        assert(a@ == self@.team_a.players && b@ == self@.team_b.players);
        let mut i: usize = 0;
        while i < player_count
            invariant
                player_count == self@.team_size(),
                player_count <= 5,
                i <= player_count,
                a@ == self@.team_a.players,
                b@ == self@.team_b.players,
                forall|k: int| 0 <= k < i ==> a@[k] != Pubkey::zero() && b@[k] != Pubkey::zero(),
            decreases player_count - i,
        {
            let pa = a[i];
            let pb = b[i];
            if pa == Pubkey::default() || pb == Pubkey::default() {
                assert(a@[i as int] == Pubkey::zero() || b@[i as int] == Pubkey::zero());
                return Ok(false);
            }
            i = i + 1;
        }
        assert(i == player_count);
        assert forall|k: int| 0 <= k < player_count implies a@[k] != Pubkey::zero() && b@[k] != Pubkey::zero() by {
            assert(0 <= k < i);
            assert(a@[k] != Pubkey::zero());
        }
        let mut i: usize = 0;
        while i < player_count
            invariant
                player_count == self@.team_size(),
                player_count <= 5,
                i <= player_count,
                a@ == self@.team_a.players,
                b@ == self@.team_b.players,
                forall|k: int| 0 <= k < player_count ==> a@[k] != Pubkey::zero() && b@[k] != Pubkey::zero(),
                forall|x: int, y: int| 0 <= x < i && 0 <= y < player_count ==> a@[x] != b@[y],
            decreases player_count - i,
        {
            let mut j: usize = 0;
            while j < player_count
                invariant
                    player_count == self@.team_size(),
                    player_count <= 5,
                    i < player_count,
                    j <= player_count,
                    a@ == self@.team_a.players,
                    b@ == self@.team_b.players,
                    forall|k: int| 0 <= k < player_count ==> a@[k] != Pubkey::zero() && b@[k] != Pubkey::zero(),
                    forall|x: int, y: int| 0 <= x < i && 0 <= y < player_count ==> a@[x] != b@[y],
                    forall|y: int| 0 <= y < j ==> a@[i as int] != b@[y],
                decreases player_count - j,
            {
                if a[i] == b[j] {
                    assert(self@.team_a.players[i as int] == self@.team_b.players[j as int]);
                    assert(!(exists|k: int|
                        0 <= k < player_count && (#[trigger] self@.team_a.players[k] == Pubkey::zero()
                            || self@.team_b.players[k] == Pubkey::zero())));
                    return Err(WagerError::DuplicatePlayer);
                }
                j = j + 1;
            }
            i = i + 1;
        }
        Ok(true)
    }

    /// Strict variant: both compositions valid and nobody on both teams.
    pub fn check_all_filled_secure(&self) -> (r: Result<bool, WagerError>)
        ensures
            r == self@.all_filled_strict(),
    {
        let player_count = self.game_mode.players_per_team();
        self.team_a.validate_composition(player_count)?;
        self.team_b.validate_composition(player_count)?;
        let a = self.team_a.players;
        let b = self.team_b.players;
        assert(a@ == self@.team_a.players && b@ == self@.team_b.players);
        let mut i: usize = 0;
        while i < player_count
            invariant
                player_count == self@.team_size(),
                player_count <= 5,
                i <= player_count,
                a@ == self@.team_a.players,
                b@ == self@.team_b.players,
                self@.team_a.composition_check(player_count as int) is Ok,
                self@.team_b.composition_check(player_count as int) is Ok,
                forall|x: int, y: int|
                    0 <= x < i && 0 <= y < player_count ==> !(a@[x] != Pubkey::zero() && b@[y] == a@[x]),
            decreases player_count - i,
        {
            let player_a = a[i];
            if player_a != Pubkey::default() {
                let mut j: usize = 0;
                while j < player_count
                    invariant
                        player_count == self@.team_size(),
                        player_count <= 5,
                        i < player_count,
                        j <= player_count,
                        a@ == self@.team_a.players,
                        b@ == self@.team_b.players,
                        self@.team_a.composition_check(player_count as int) is Ok,
                        self@.team_b.composition_check(player_count as int) is Ok,
                        player_a == a@[i as int],
                        player_a != Pubkey::zero(),
                        forall|y: int| 0 <= y < j ==> b@[y] != player_a,
                    decreases player_count - j,
                {
                    if b[j] == player_a {
                        assert(self@.team_b.players[j as int] == self@.team_a.players[i as int]);
                        assert(self@.team_a.players[i as int] != Pubkey::zero());
                        return Err(WagerError::DuplicatePlayer);
                    }
                    j = j + 1;
                }
            }
            i = i + 1;
        }
        Ok(true)
    }

    /// Whether the session sells spawns.
    pub fn is_pay_to_spawn(&self) -> (b: bool)
        ensures
            b == self.game_mode.sells_spawns(),
    {
        self.game_mode.is_pay_to_spawn()
    }

    fn find_player_index(&self, team: u8, player: Pubkey) -> (r: Result<usize, WagerError>)
        ensures
            match self@.slot_of(team, player) {
                Ok(i) => 0 <= i < self@.team_size() && r == Ok::<usize, WagerError>(i as usize),
                Err(e) => r == Err::<usize, WagerError>(e),
            },
    {
        proof {
            lemma_position_of(self@.team_of(team).players, self@.team_size(), player);
        }
        let player_count = self.game_mode.players_per_team();
        let team_players = match team {
            0 => self.team_a.players,
            1 => self.team_b.players,
            _ => {
                return Err(WagerError::InvalidTeam);
            },
        };
        assert(team_players@ == self@.team_of(team).players);
        for i in 0..player_count
            invariant
                player_count == self@.team_size(),
                player_count <= 5,
                team <= 1,
                team_players@ == self@.team_of(team).players,
                position_of(team_players@, i as int, player) is None,
        {
            let candidate = team_players[i];
            if candidate == player {
                proof {
                    assert(team_players@[i as int] == player);
                    assert(position_of(team_players@, i as int + 1, player) == Some(i as int));
                    crate::team::lemma_position_of_stable(team_players@, i as int + 1, player_count as int, player);
                }
                return Ok(i);
            }
        }
        Err(WagerError::PlayerNotFound)
    }

    /// The slot of `player` on `team` (0 for team A, 1 for team B).
    pub fn get_player_index(&self, team: u8, player: Pubkey) -> (r: Result<usize, WagerError>)
        ensures
            match self@.slot_of(team, player) {
                Ok(i) => 0 <= i < self@.team_size() && r == Ok::<usize, WagerError>(i as usize),
                Err(e) => r == Err::<usize, WagerError>(e),
            },
    {
        self.find_player_index(team, player)
    }

    /// Whether `player` has joined either team.
    pub fn is_player_already_joined(&self, player: Pubkey) -> (r: Result<bool, WagerError>)
        ensures
            r == self@.joined(player),
    {
        if !(player != Pubkey::default()) {
            return Err(WagerError::InvalidPlayer);
        }
        let player_count = self.game_mode.players_per_team();
        let in_team_a = self.team_a.contains_player(player, player_count)?;
        let in_team_b = self.team_b.contains_player(player, player_count)?;
        if in_team_a && in_team_b {
            return Err(WagerError::DuplicatePlayer);
        }
        Ok(in_team_a || in_team_b)
    }

    /// The first empty slot of `team`.
    pub fn get_player_empty_slot(&self, team: u8) -> (r: Result<usize, WagerError>)
        ensures
            match self@.open_slot(team) {
                Ok(i) => r == Ok::<usize, WagerError>(i as usize),
                Err(e) => r == Err::<usize, WagerError>(e),
            },
    {
        let player_count = self.game_mode.players_per_team();
        match team {
            0 => self.team_a.get_empty_slot(player_count),
            1 => self.team_b.get_empty_slot(player_count),
            _ => Err(WagerError::InvalidTeam),
        }
    }

    /// Moves the status under the legacy rules (a game starts only with
    /// both teams full; anything may be cancelled; nothing else leaves a
    /// final status) and records the operation.
    pub fn transition_status(&mut self, new_status: GameStatus, now: i64) -> (r: Result<(), WagerError>)
        requires
            old(self)@.window_fits(),
        ensures
            (final(self)@, r) == old(self)@.status_changed(new_status, now),
    {
        match (self.status, new_status) {
            (GameStatus::WaitingForPlayers, GameStatus::InProgress) => {
                let filled = self.check_all_filled()?;
                if !filled {
                    return Err(WagerError::NotAllPlayersJoined);
                }
            },
            (GameStatus::InProgress, GameStatus::Completed) => {},
            (_, GameStatus::Cancelled) => {},
            _ => {
                if self.status.is_final() {
                    return Err(WagerError::InvalidGameState);
                }
            },
        }
        self.status = new_status;
        self.update_operation_tracking(now)
    }

    /// Credits `killer` (of `killer_team`) with a kill of `victim` (of the
    /// other team): one more kill for the killer, one spawn less for the
    /// victim, then the operation is recorded.
    pub fn add_kill(
        &mut self,
        killer_team: u8,
        killer: Pubkey,
        victim_team: u8,
        victim: Pubkey,
        now: i64,
    ) -> (r: Result<(), WagerError>)
        requires
            old(self)@.window_fits(),
        ensures
            (final(self)@, r) == old(self)@.kill_recorded(killer_team, killer, victim_team, victim, now),
    {
        if !self.status.allows_game_operations() {
            return Err(WagerError::GameNotInProgress);
        }
        if !(killer_team != victim_team && killer_team <= 1 && victim_team <= 1) {
            return Err(WagerError::InvalidTeam);
        }
        if !(killer != victim && killer != Pubkey::default() && victim != Pubkey::default()) {
            return Err(WagerError::InvalidKillTarget);
        }
        let killer_idx = self.find_player_index(killer_team, killer)?;
        let victim_idx = self.find_player_index(victim_team, victim)?;
        let ghost start = self@;
        let (victim_spawns, killer_kills) = if killer_team == 0 {
            (self.team_b.player_spawns[victim_idx], self.team_a.player_kills[killer_idx])
        } else {
            (self.team_a.player_spawns[victim_idx], self.team_b.player_kills[killer_idx])
        };
        assert(victim_spawns == start.team_of(victim_team).player_spawns[victim_idx as int]);
        assert(killer_kills == start.team_of(killer_team).player_kills[killer_idx as int]);
        if !(victim_spawns > 0) {
            return Err(WagerError::PlayerHasNoSpawns);
        }
        if !(killer_kills < MAX_KILLS) {
            return Err(WagerError::InvalidKillCount);
        }
        let new_killer_kills = safe_add_u8(killer_kills, 1, MAX_KILLS)?;
        let new_victim_spawns = victim_spawns - 1;
        if killer_team == 0 {
            self.team_a.player_kills[killer_idx] = new_killer_kills;
            self.team_b.player_spawns[victim_idx] = new_victim_spawns;
        } else {
            self.team_b.player_kills[killer_idx] = new_killer_kills;
            self.team_a.player_spawns[victim_idx] = new_victim_spawns;
        }
        assert(self@ =~= start.with_team(
            killer_team,
            TeamView { player_kills: start.team_of(killer_team).player_kills.update(killer_idx as int, new_killer_kills), ..start.team_of(killer_team) },
        ).with_team(
            victim_team,
            TeamView { player_spawns: start.team_of(victim_team).player_spawns.update(victim_idx as int, new_victim_spawns), ..start.team_of(victim_team) },
        ));
        self.update_operation_tracking(now)
    }

    /// Sells one batch of spawns (the mode's increment) to the player in
    /// slot `player_index` of `team`, within `MAX_SPAWNS`.
    pub fn add_spawns(&mut self, team: u8, player_index: usize, now: i64) -> (r: Result<(), WagerError>)
        requires
            old(self)@.window_fits(),
        ensures
            (final(self)@, r) == old(self)@.spawns_added(team, player_index as int, now),
    {
        if !self.game_mode.is_pay_to_spawn() {
            return Err(WagerError::InvalidGameModeForOperation);
        }
        if !(team <= 1) {
            return Err(WagerError::InvalidTeam);
        }
        if !(player_index < self.game_mode.players_per_team()) {
            return Err(WagerError::PlayerIndexOutOfBounds);
        }
        let increment = self.game_mode.spawn_increment();
        if !(increment > 0) {
            return Err(WagerError::InvalidSpawnIncrement);
        }
        let ghost start = self@;
        let current_spawns = if team == 0 {
            self.team_a.player_spawns[player_index]
        } else {
            self.team_b.player_spawns[player_index]
        };
        let new_spawns = safe_add_u8(current_spawns, increment, MAX_SPAWNS)?;
        if team == 0 {
            self.team_a.player_spawns[player_index] = new_spawns;
        } else {
            self.team_b.player_spawns[player_index] = new_spawns;
        }
        assert(self@ =~= start.with_team(
            team,
            TeamView { player_spawns: start.team_of(team).player_spawns.update(player_index as int, new_spawns), ..start.team_of(team) },
        ));
        self.update_operation_tracking(now)
    }

    /// Same as `add_spawns`.
    pub fn add_spawns_safe(&mut self, team: u8, player_index: usize, now: i64) -> (r: Result<(), WagerError>)
        requires
            old(self)@.window_fits(),
        ensures
            (final(self)@, r) == old(self)@.spawns_added(team, player_index as int, now),
    {
        self.add_spawns(team, player_index, now)
    }

    fn stats_lookup(&self, player: Pubkey) -> (r: Option<(u8, u8)>)
        ensures
            r == self@.stats_of(player),
    {
        let player_count = self.game_mode.players_per_team();
        match self.find_player_index(0, player) {
            Ok(i) => {
                let kills = self.team_a.player_kills[i];
                let spawns = self.team_a.player_spawns[i];
                assert(kills == self@.team_a.player_kills[i as int]);
                assert(spawns == self@.team_a.player_spawns[i as int]);
                return Some((kills, spawns));
            },
            Err(_) => {},
        }
        match self.find_player_index(1, player) {
            Ok(i) => {
                let kills = self.team_b.player_kills[i];
                let spawns = self.team_b.player_spawns[i];
                assert(kills == self@.team_b.player_kills[i as int]);
                assert(spawns == self@.team_b.player_spawns[i as int]);
                Some((kills, spawns))
            },
            Err(_) => None,
        }
    }

    /// The earnings of `player`: a tenth of the bet for every kill and
    /// every spawn the player holds.
    pub fn calculate_player_earnings(&self, player_pubkey: Pubkey) -> (r: Result<u64, WagerError>)
        ensures
            r == self@.earnings_of(player_pubkey),
    {
        if !(player_pubkey != Pubkey::default()) {
            return Err(WagerError::InvalidPlayer);
        }
        let (kills, spawns) = match self.stats_lookup(player_pubkey) {
            Some(found) => found,
            None => {
                return Err(WagerError::PlayerNotFound);
            },
        };
        if !(kills <= MAX_KILLS && spawns <= MAX_SPAWNS) {
            return Err(WagerError::InvalidKillCount);
        }
        let total_activity = safe_add_u64(kills as u64, spawns as u64)?;
        if !(total_activity <= MAX_TOTAL_ACTIVITY) {
            return Err(WagerError::ValueTooLarge);
        }
        let scaled_activity = safe_mul_u64(total_activity, SCALING_FACTOR)?;
        let gross_earnings = safe_mul_u64(scaled_activity, self.session_bet)?;
        let final_earnings = safe_div_u64(gross_earnings, SCALING_FACTOR * 10)?;
        let max_earnings = safe_mul_u64(MAX_TOTAL_ACTIVITY, MAX_BET)?;
        if !(final_earnings <= max_earnings) {
            return Err(WagerError::ValueTooLarge);
        }
        Ok(final_earnings)
    }

    /// Same as `calculate_player_earnings`.
    pub fn calculate_player_earnings_safe(&self, player_pubkey: Pubkey) -> (r: Result<u64, WagerError>)
        ensures
            r == self@.earnings_of(player_pubkey),
    {
        self.calculate_player_earnings(player_pubkey)
    }

    /// Kills plus spawns of `player`.
    pub fn get_kills_and_spawns(&self, player_pubkey: Pubkey) -> (r: Result<u16, WagerError>)
        ensures
            r == self@.activity_of(player_pubkey),
    {
        if !(player_pubkey != Pubkey::default()) {
            return Err(WagerError::InvalidPlayer);
        }
        match self.stats_lookup(player_pubkey) {
            Some((kills, spawns)) => {
                if !(kills <= MAX_KILLS && spawns <= MAX_SPAWNS) {
                    return Err(WagerError::InvalidKillCount);
                }
                Ok(kills as u16 + spawns as u16)
            },
            None => Err(WagerError::PlayerNotFound),
        }
    }

    /// Every joined player: for each slot, team A's then team B's.
    pub fn get_all_players(&self) -> (v: Vec<Pubkey>)
        ensures
            v@ == roster(self@.team_a.players, self@.team_b.players, self@.team_size()),
    {
        let mut players: Vec<Pubkey> = Vec::new();
        let player_count = self.game_mode.players_per_team();
        let a = self.team_a.players;
        let b = self.team_b.players;
        for i in 0..player_count
            invariant
                player_count == self@.team_size(),
                player_count <= 5,
                a@ == self@.team_a.players,
                b@ == self@.team_b.players,
                players@ == roster(a@, b@, i as int),
        {
            let player_a = a[i];
            let player_b = b[i];
            if player_a != Pubkey::default() {
                players.push(player_a);
            }
            if player_b != Pubkey::default() {
                players.push(player_b);
            }
        }
        players
    }

    /// Whether a payout may start: game in progress, no payout begun, no
    /// operation under way, and both teams validly composed.
    pub fn can_start_distribution(&self) -> (r: Result<bool, WagerError>)
        ensures
            r == self@.distribution_startable(),
    {
        if self.status != GameStatus::InProgress {
            return Ok(false);
        }
        if self.distribution_status != DistributionStatus::NotStarted {
            return Ok(false);
        }
        if self.current_operation.is_some() || self.locked {
            return Ok(false);
        }
        let filled = self.check_all_filled_secure()?;
        if !filled {
            return Ok(false);
        }
        Ok(true)
    }

    /// Lets the authority clear the operation lock once it is free or has
    /// timed out.
    pub fn clear_operation_lock(&mut self, authority: Pubkey, now: i64) -> (r: Result<(), WagerError>)
        requires
            old(self).locked ==> i64::MIN <= now - old(self).operation_started_at <= i64::MAX,
        ensures
            (final(self)@, r) == old(self)@.lock_cleared(authority, now),
    {
        if !(self.authority == authority) {
            return Err(WagerError::UnauthorizedDistribution);
        }
        let timeout_duration: i64 = match &self.current_operation {
            Some(op) => {
                let text = chars_of(op.as_str());
                if contains_str(&text, "distribution") || contains_str(&text, "refund") {
                    300
                } else {
                    120
                }
            },
            None => 120,
        };
        if self.locked && now - self.operation_started_at < timeout_duration {
            return Err(WagerError::ConcurrentOperation);
        }
        self.release_lock();
        Ok(())
    }

    /// Checks the stored record against `expected_hash` and its own
    /// consistency rules.
    pub fn validate_integrity_with_hash(&self, expected_hash: &[u8; 32]) -> (r: Result<(), WagerError>)
        ensures
            r == self@.integrity(expected_hash@),
    {
        let id_len = self.session_id.as_str().as_bytes().len();
        if !(!self.session_id.as_str().is_empty() && id_len <= 32) {
            return Err(WagerError::InvalidSessionId);
        }
        if !(self.authority != Pubkey::default()) {
            return Err(WagerError::AuthorityMismatch);
        }
        if !(self.session_bet >= MIN_BET && self.session_bet <= MAX_BET) {
            return Err(WagerError::InvalidBetAmount);
        }
        if !(self.created_at > 0 && self.last_operation >= self.created_at) {
            return Err(WagerError::InvalidTimestamp);
        }
        if !same_bytes(&self.session_hash, expected_hash) {
            return Err(WagerError::SessionIdCollision);
        }
        if !(!self.locked || self.current_operation.is_some()) {
            return Err(WagerError::GameDataCorruption);
        }
        Ok(())
    }

    /// Checks the stored record: identifier length, authority, bet range,
    /// timestamps, the session hash recomputed from identifier, authority
    /// and creation time, and that a held lock names its operation.
    pub fn validate_integrity(&self) -> (r: Result<(), WagerError>)
        ensures
            r == self@.integrity(session_hash(self@.session_id, self@.authority, self@.created_at)),
    {
        let expected_hash = generate_session_hash(self.session_id.as_str(), self.authority, self.created_at);
        self.validate_integrity_with_hash(&expected_hash)
    }

    /// Sets up a fresh session: `session_id` must be 12 to 32 bytes of ASCII
    /// letters, digits, `_` and `-`, and the bet within `MIN_BET..=MAX_BET`.
    /// `nonce` is the session's starting nonce; the stored session hash is
    /// that of the identifier, `authority` and `now`.
    pub fn initialize(
        &mut self,
        session_id: String,
        authority: Pubkey,
        session_bet: u64,
        game_mode: GameMode,
        bump: u8,
        vault_bump: u8,
        now: i64,
        nonce: u64,
    ) -> (r: Result<(), WagerError>)
        ensures
            !initial_id_ok(session_id@) ==> r == Err::<(), WagerError>(WagerError::InvalidSessionId)
                && final(self)@ == old(self)@,
            initial_id_ok(session_id@) && !(MIN_BET <= session_bet <= MAX_BET) ==> r == Err::<(), WagerError>(
                WagerError::InvalidBetAmount,
            ) && final(self)@ == old(self)@,
            initial_id_ok(session_id@) && MIN_BET <= session_bet <= MAX_BET ==> r is Ok
                && final(self)@ == initial_session(
                    session_id@,
                    authority,
                    session_bet,
                    game_mode,
                    bump,
                    vault_bump,
                    now,
                    nonce,
                    session_hash(session_id@, authority, now),
                ),
    {
        let id_len = session_id.as_str().as_bytes().len();
        if !(id_len >= 12 && id_len <= 32) {
            return Err(WagerError::InvalidSessionId);
        }
        let chars = chars_of(session_id.as_str());
        for i in 0..chars.len()
            invariant
                chars@ == session_id@,
                12 <= encode_utf8(session_id@).len() <= 32,
                forall|k: int| 0 <= k < i ==> is_id_char(#[trigger] chars@[k]),
        {
            if !id_char(chars[i]) {
                assert(!is_id_char(session_id@[i as int]));
                return Err(WagerError::InvalidSessionId);
            }
        }
        if !(session_bet >= MIN_BET && session_bet <= MAX_BET) {
            return Err(WagerError::InvalidBetAmount);
        }
        let hash = generate_session_hash(session_id.as_str(), authority, now);
        self.session_id = session_id;
        self.authority = authority;
        self.session_bet = session_bet;
        self.game_mode = game_mode;
        self.team_a = Team::default();
        self.team_b = Team::default();
        self.status = GameStatus::WaitingForPlayers;
        self.created_at = now;
        self.bump = bump;
        self.vault_bump = vault_bump;
        self.nonce = nonce;
        self.last_operation = now;
        self.session_hash = hash;
        self.operation_count = 0;
        self.last_operation_window = now;
        self.operations_in_window = 0;
        self.distribution_status = DistributionStatus::NotStarted;
        self.distribution_started_at = 0;
        self.distribution_nonce = 0;
        self.last_distribution_attempt = 0;
        self.current_operation = None;
        self.operation_started_at = 0;
        self.locked = false;
        assert(self.team_a@ =~= fresh_team());
        assert(self.team_b@ =~= fresh_team());
        assert(self@ =~= initial_session(
            session_id@,
            authority,
            session_bet,
            game_mode,
            bump,
            vault_bump,
            now,
            nonce,
            session_hash(session_id@, authority, now),
        ));
        Ok(())
    }

}

} // verus!
