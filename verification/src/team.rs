//! One side of a game: up to five player slots with their kills and spawns.
use vstd::prelude::*;
use crate::errors::WagerError;
use crate::pubkey::Pubkey;
use crate::state::{MAX_KILLS, MAX_SPAWNS, MAX_TOTAL_ACTIVITY};

verus! {

/// Spawns each player starts a game with.
pub const STARTING_SPAWNS: u8 = 10;

/// A team of up to five players. Slot `i` holds a player's key (zero when
/// empty), their remaining spawns and their kills.
#[derive(Debug, Clone, Copy, PartialEq, Eq)]
pub struct Team {
    pub players: [Pubkey; 5],
    pub total_bet: u64,
    pub player_spawns: [u8; 5],
    pub player_kills: [u8; 5],
}

/// The mathematical content of a team.
#[verifier::ext_equal]
pub struct TeamView {
    pub players: Seq<Pubkey>,
    pub total_bet: u64,
    pub player_spawns: Seq<u8>,
    pub player_kills: Seq<u8>,
}

impl View for Team {
    type V = TeamView;

    open spec fn view(&self) -> TeamView {
        TeamView {
            players: self.players@,
            total_bet: self.total_bet,
            player_spawns: self.player_spawns@,
            player_kills: self.player_kills@,
        }
    }
}

/// The first slot among the first `n` whose key is `key`, if any.
pub open spec fn position_of(keys: Seq<Pubkey>, n: int, key: Pubkey) -> Option<int>
    decreases n,
{
    if n <= 0 {
        None
    } else {
        match position_of(keys, n - 1, key) {
            Some(i) => Some(i),
            None => if keys[n - 1] == key {
                Some(n - 1)
            } else {
                None
            },
        }
    }
}

/// `position_of` finds exactly the first matching slot.
pub proof fn lemma_position_of(keys: Seq<Pubkey>, n: int, key: Pubkey)
    ensures
        position_of(keys, n, key) matches Some(i) ==> {
            &&& 0 <= i < n
            &&& keys[i] == key
            &&& forall|j: int| 0 <= j < i ==> keys[j] != key
        },
        position_of(keys, n, key) is None <==> forall|j: int| 0 <= j < n ==> keys[j] != key,
    decreases n,
{
    if n > 0 {
        lemma_position_of(keys, n - 1, key);
    }
}

/// Once found, a position stays the answer for every longer prefix.
pub proof fn lemma_position_of_stable(keys: Seq<Pubkey>, k: int, m: int, key: Pubkey)
    requires
        0 <= k <= m,
        position_of(keys, k, key) is Some,
    ensures
        position_of(keys, m, key) == position_of(keys, k, key),
    decreases m - k,
{
    if m > k {
        lemma_position_of_stable(keys, k, m - 1, key);
    }
}

/// Kills plus spawns summed over the first `n` slots.
pub open spec fn activity_sum(kills: Seq<u8>, spawns: Seq<u8>, n: int) -> int
    decreases n,
{
    if n <= 0 {
        0
    } else {
        activity_sum(kills, spawns, n - 1) + kills[n - 1] + spawns[n - 1]
    }
}

proof fn lemma_activity_sum_bound(kills: Seq<u8>, spawns: Seq<u8>, n: int)
    requires
        0 <= n,
    ensures
        0 <= activity_sum(kills, spawns, n) <= 510 * n,
    decreases n,
{
    if n > 0 {
        lemma_activity_sum_bound(kills, spawns, n - 1);
    }
}

impl TeamView {
    /// Each per-slot sequence covers the five slots of a team.
    pub open spec fn well_formed(self) -> bool {
        &&& self.players.len() == 5
        &&& self.player_spawns.len() == 5
        &&& self.player_kills.len() == 5
    }

    /// Every one of the first `n` slots has sane kill and spawn counts.
    pub open spec fn stats_within_limits(self, n: int) -> bool {
        forall|i: int|
            0 <= i < n ==> self.player_kills[i] <= MAX_KILLS && self.player_spawns[i] <= MAX_SPAWNS
    }

    /// Every one of the first `n` slots holds a player.
    pub open spec fn slots_filled(self, n: int) -> bool {
        forall|i: int| 0 <= i < n ==> self.players[i] != Pubkey::zero()
    }

    /// No player appears twice among the first `n` slots.
    pub open spec fn distinct_players(self, n: int) -> bool {
        forall|i: int, j: int| 0 <= i < j < n ==> self.players[i] != self.players[j]
    }

    /// The verdict on a team's composition: every one of the first `n`
    /// slots taken, by distinct players.
    pub open spec fn composition_check(self, n: int) -> Result<(), WagerError> {
        if !self.slots_filled(n) {
            Err(WagerError::InvalidTeamComposition)
        } else if !self.distinct_players(n) {
            Err(WagerError::DuplicatePlayer)
        } else {
            Ok(())
        }
    }

    /// Whether `key` sits in one of the first `n` slots.
    pub open spec fn has_player(self, key: Pubkey, n: int) -> bool {
        exists|i: int| 0 <= i < n && self.players[i] == key
    }
}

impl Default for Team {
    fn default() -> (t: Team)
        ensures
            forall|i: int| 0 <= i < 5 ==> t.players[i] == Pubkey::zero(),
            forall|i: int| 0 <= i < 5 ==> t.player_spawns[i] == STARTING_SPAWNS,
            forall|i: int| 0 <= i < 5 ==> t.player_kills[i] == 0,
            t.total_bet == 0,
    {
        let empty = Pubkey::default();
        Team {
            players: [empty, empty, empty, empty, empty],
            total_bet: 0,
            player_spawns: [STARTING_SPAWNS, STARTING_SPAWNS, STARTING_SPAWNS, STARTING_SPAWNS, STARTING_SPAWNS],
            player_kills: [0, 0, 0, 0, 0],
        }
    }
}

impl Team {
    /// Checks that the first `player_count` players have at most
    /// `MAX_KILLS` kills and `MAX_SPAWNS` spawns.
    pub fn validate_stats(&self, player_count: usize) -> (r: Result<(), WagerError>)
        ensures
            player_count > 5 ==> r == Err::<(), WagerError>(WagerError::PlayerIndexOutOfBounds),
            player_count <= 5 ==> (r is Ok <==> self@.stats_within_limits(player_count as int)),
            player_count <= 5 && r is Err ==> r == Err::<(), WagerError>(WagerError::InvalidKillCount),
    {
        if !(player_count <= 5) {
            return Err(WagerError::PlayerIndexOutOfBounds);
        }
        for i in 0..player_count
            invariant
                player_count <= 5,
                self@.stats_within_limits(i as int),
        {
            if !(self.player_kills[i] <= MAX_KILLS && self.player_spawns[i] <= MAX_SPAWNS) {
                assert(!(self@.player_kills[i as int] <= MAX_KILLS && self@.player_spawns[i as int] <= MAX_SPAWNS));
                return Err(WagerError::InvalidKillCount);
            }
        }
        Ok(())
    }

    /// Total kills plus spawns of the first `player_count` players, refused
    /// when above five times `MAX_TOTAL_ACTIVITY`.
    pub fn calculate_total_activity(&self, player_count: usize) -> (r: Result<u64, WagerError>)
        ensures
            player_count > 5 ==> r == Err::<u64, WagerError>(WagerError::PlayerIndexOutOfBounds),
            player_count <= 5 ==> {
                let total = activity_sum(self.player_kills@, self.player_spawns@, player_count as int);
                if total <= 5 * MAX_TOTAL_ACTIVITY {
                    r == Ok::<u64, WagerError>(total as u64)
                } else {
                    r == Err::<u64, WagerError>(WagerError::ValueTooLarge)
                }
            },
    {
        if !(player_count <= 5) {
            return Err(WagerError::PlayerIndexOutOfBounds);
        }
        let mut total: u64 = 0;
        for i in 0..player_count
            invariant
                player_count <= 5,
                total == activity_sum(self.player_kills@, self.player_spawns@, i as int),
                total <= 510 * i,
        {
            proof {
                lemma_activity_sum_bound(self.player_kills@, self.player_spawns@, i as int + 1);
            }
            let kills = self.player_kills[i] as u64;
            let spawns = self.player_spawns[i] as u64;
            total = total + (kills + spawns);
        }
        if !(total <= MAX_TOTAL_ACTIVITY * 5) {
            return Err(WagerError::ValueTooLarge);
        }
        Ok(total)
    }

    /// The first empty slot among the first `player_count`.
    pub fn get_empty_slot(&self, player_count: usize) -> (r: Result<usize, WagerError>)
        ensures
            player_count > 5 ==> r == Err::<usize, WagerError>(WagerError::PlayerIndexOutOfBounds),
            player_count <= 5 ==> match position_of(self.players@, player_count as int, Pubkey::zero()) {
                Some(i) => r == Ok::<usize, WagerError>(i as usize),
                None => r == Err::<usize, WagerError>(WagerError::TeamIsFull),
            },
    {
        if !(player_count <= 5) {
            return Err(WagerError::PlayerIndexOutOfBounds);
        }
        for i in 0..player_count
            invariant
                player_count <= 5,
                position_of(self.players@, i as int, Pubkey::zero()) is None,
        {
            if self.players[i] == Pubkey::default() {
                proof {
                    assert(position_of(self.players@, i as int + 1, Pubkey::zero()) == Some(i as int));
                    lemma_position_of_stable(self.players@, i as int + 1, player_count as int, Pubkey::zero());
                }
                return Ok(i);
            }
        }
        Err(WagerError::TeamIsFull)
    }

    /// Whether `player` sits in one of the first `player_count` slots.
    pub fn contains_player(&self, player: Pubkey, player_count: usize) -> (r: Result<bool, WagerError>)
        ensures
            player_count > 5 ==> r == Err::<bool, WagerError>(WagerError::PlayerIndexOutOfBounds),
            player_count <= 5 && player == Pubkey::zero() ==> r == Err::<bool, WagerError>(WagerError::InvalidPlayer),
            player_count <= 5 && player != Pubkey::zero() ==> r == Ok::<bool, WagerError>(
                self@.has_player(player, player_count as int),
            ),
    {
        if !(player_count <= 5) {
            return Err(WagerError::PlayerIndexOutOfBounds);
        }
        if !(player != Pubkey::default()) {
            return Err(WagerError::InvalidPlayer);
        }
        for i in 0..player_count
            invariant
                player_count <= 5,
                player != Pubkey::zero(),
                !self@.has_player(player, i as int),
        {
            if self.players[i] == player && self.players[i] != Pubkey::default() {
                assert(self@.players[i as int] == player);
                return Ok(true);
            }
            assert(self@.players[i as int] != player);
        }
        Ok(false)
    }

    /// Checks that the first `expected_count` slots are all taken, by
    /// distinct players.
    pub fn validate_composition(&self, expected_count: usize) -> (r: Result<(), WagerError>)
        ensures
            expected_count > 5 ==> r == Err::<(), WagerError>(WagerError::PlayerIndexOutOfBounds),
            expected_count <= 5 ==> r == self@.composition_check(expected_count as int),
    {
        if !(expected_count <= 5) {
            return Err(WagerError::PlayerIndexOutOfBounds);
        }
        for i in 0..expected_count
            invariant
                expected_count <= 5,
                self@.slots_filled(i as int),
        {
            if self.players[i] == Pubkey::default() {
                assert(self@.players[i as int] == Pubkey::zero());
                return Err(WagerError::InvalidTeamComposition);
            }
        }
        for i in 0..expected_count
            invariant
                expected_count <= 5,
                self@.slots_filled(expected_count as int),
                forall|a: int, b: int| 0 <= a < b < expected_count && a < i ==> self.players[a] != self.players[b],
        {
            for j in (i + 1)..expected_count
                invariant
                    expected_count <= 5,
                    i < expected_count,
                    self@.slots_filled(expected_count as int),
                    forall|a: int, b: int| 0 <= a < b < expected_count && a < i ==> self.players[a] != self.players[b],
                    forall|b: int| i < b < j ==> self.players[i as int] != self.players[b],
            {
                if self.players[i] == self.players[j] {
                    assert(self@.players[i as int] == self@.players[j as int]);
                    return Err(WagerError::DuplicatePlayer);
                }
            }
        }
        Ok(())
    }
}

} // verus!
