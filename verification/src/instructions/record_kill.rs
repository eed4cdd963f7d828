//! Recording a kill reported by the game server.
use vstd::prelude::*;
use crate::errors::WagerError;
use crate::pubkey::Pubkey;
use crate::session::{GameSession, SessionView};
use crate::state::{GameStatus, GAME_TIMEOUT_SECONDS};
use crate::utils::{session_id_is_valid, validate_session_id};

verus! {

/// The accounts of a kill report: the session and the game server.
pub struct RecordKill {
    pub game_session: GameSession,
    pub game_server: Pubkey,
    pub game_server_is_signer: bool,
}

/// The outcome of a kill report: the session identifier, the session's age
/// and status, both teams, both players and the reporter are checked, the
/// victim must have a spawn left and the killer's count must not be
/// saturated; then the kill is recorded.
pub open spec fn kill_report_outcome(
    s: SessionView,
    session_id: Seq<char>,
    game_server: Pubkey,
    game_server_is_signer: bool,
    killer_team: u8,
    killer: Pubkey,
    victim_team: u8,
    victim: Pubkey,
    now: i64,
) -> (SessionView, Result<(), WagerError>) {
    if !session_id_is_valid(session_id) {
        (s, Err(WagerError::InvalidSessionId))
    } else if now - s.created_at > GAME_TIMEOUT_SECONDS {
        (s, Err(WagerError::GameTimeout))
    } else if s.status != GameStatus::InProgress {
        (s, Err(WagerError::GameNotInProgress))
    } else if killer_team > 1 || victim_team > 1 {
        (s, Err(WagerError::InvalidTeamSelection))
    } else if killer_team == victim_team || killer == victim {
        (s, Err(WagerError::InvalidKillTarget))
    } else if killer == Pubkey::zero() || victim == Pubkey::zero() {
        (s, Err(WagerError::InvalidPlayer))
    } else if game_server != s.authority || !game_server_is_signer {
        (s, Err(WagerError::UnauthorizedKill))
    } else {
        match s.slot_of(killer_team, killer) {
            Err(e) => (s, Err(e)),
            Ok(ki) => match s.slot_of(victim_team, victim) {
                Err(e) => (s, Err(e)),
                Ok(vi) => if s.team_of(victim_team).player_spawns[vi] == 0 {
                    (s, Err(WagerError::PlayerHasNoSpawns))
                } else if s.team_of(killer_team).player_kills[ki] == u8::MAX {
                    (s, Err(WagerError::ArithmeticError))
                } else {
                    s.kill_recorded(killer_team, killer, victim_team, victim, now)
                },
            },
        }
    }
}

/// Records that `killer` of `killer_team` killed `victim` of `victim_team`
/// at time `now`.
pub fn record_kill_handler(
    accounts: &mut RecordKill,
    session_id: &str,
    killer_team: u8,
    killer: Pubkey,
    victim_team: u8,
    victim: Pubkey,
    now: i64,
) -> (r: Result<(), WagerError>)
    requires
        old(accounts).game_session@.window_fits(),
    ensures
        (final(accounts).game_session@, r) == kill_report_outcome(
            old(accounts).game_session@,
            session_id@,
            old(accounts).game_server,
            old(accounts).game_server_is_signer,
            killer_team,
            killer,
            victim_team,
            victim,
            now,
        ),
        final(accounts).game_server == old(accounts).game_server,
        final(accounts).game_server_is_signer == old(accounts).game_server_is_signer,
{
    validate_session_id(session_id)?;
    let game_session = &mut accounts.game_session;
    game_session.validate_not_expired_safe(now)?;
    if game_session.status != GameStatus::InProgress {
        return Err(WagerError::GameNotInProgress);
    }
    if !(killer_team == 0 || killer_team == 1) {
        return Err(WagerError::InvalidTeamSelection);
    }
    if !(victim_team == 0 || victim_team == 1) {
        return Err(WagerError::InvalidTeamSelection);
    }
    if killer_team == victim_team {
        return Err(WagerError::InvalidKillTarget);
    }
    if killer == victim {
        return Err(WagerError::InvalidKillTarget);
    }
    if !(killer != Pubkey::default() && victim != Pubkey::default()) {
        return Err(WagerError::InvalidPlayer);
    }
    if !(accounts.game_server == game_session.authority) {
        return Err(WagerError::UnauthorizedKill);
    }
    if !accounts.game_server_is_signer {
        return Err(WagerError::UnauthorizedKill);
    }
    let killer_index = game_session.get_player_index(killer_team, killer)?;
    let victim_index = game_session.get_player_index(victim_team, victim)?;
    let max_players = game_session.game_mode.players_per_team();
    if !(killer_index < max_players && victim_index < max_players) {
        return Err(WagerError::InvalidPlayer);
    }
    let victim_spawns = if victim_team == 0 {
        game_session.team_a.player_spawns[victim_index]
    } else {
        game_session.team_b.player_spawns[victim_index]
    };
    assert(victim_spawns == game_session@.team_of(victim_team).player_spawns[victim_index as int]);
    if !(victim_spawns > 0) {
        return Err(WagerError::PlayerHasNoSpawns);
    }
    let killer_kills = if killer_team == 0 {
        game_session.team_a.player_kills[killer_index]
    } else {
        game_session.team_b.player_kills[killer_index]
    };
    assert(killer_kills == game_session@.team_of(killer_team).player_kills[killer_index as int]);
    if !(killer_kills < u8::MAX) {
        return Err(WagerError::ArithmeticError);
    }
    let original_victim_spawns = victim_spawns;
    let original_killer_kills = killer_kills;
    game_session.add_kill(killer_team, killer, victim_team, victim, now)?;
    let new_victim_spawns = if victim_team == 0 {
        game_session.team_a.player_spawns[victim_index]
    } else {
        game_session.team_b.player_spawns[victim_index]
    };
    let new_killer_kills = if killer_team == 0 {
        game_session.team_a.player_kills[killer_index]
    } else {
        game_session.team_b.player_kills[killer_index]
    };
    if !(new_victim_spawns == original_victim_spawns - 1) {
        return Err(WagerError::ArithmeticError);
    }
    if !(new_killer_kills == original_killer_kills + 1) {
        return Err(WagerError::ArithmeticError);
    }
    Ok(())
}

} // verus!
