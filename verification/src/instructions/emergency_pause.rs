//! Pausing a game in an emergency.
use vstd::prelude::*;
use crate::errors::WagerError;
use crate::pubkey::Pubkey;
use crate::session::{GameSession, SessionView};
use crate::state::{GameStatus, GAME_TIMEOUT_SECONDS};

verus! {

/// The accounts of the emergency pause: the session and its authority,
/// which has signed.
pub struct EmergencyPause {
    pub game_session: GameSession,
    pub authority: Pubkey,
}

/// The outcome of an emergency pause at time `now`: refused for expired or
/// finished sessions, otherwise the status is swapped to `EmergencyPaused`.
pub open spec fn pause_outcome(s: SessionView, now: i64) -> (SessionView, Result<(), WagerError>) {
    if now - s.created_at > GAME_TIMEOUT_SECONDS {
        (s, Err(WagerError::GameTimeout))
    } else if s.status.is_terminal() {
        (s, Err(WagerError::InvalidGameState))
    } else {
        let (t, r) = s.swapped(s.status, s.nonce, GameStatus::EmergencyPaused, Some("emergency_pause"@), now);
        match r {
            Err(e) => (t, Err(e)),
            Ok(false) => (t, Err(WagerError::ConcurrentOperation)),
            Ok(true) => (SessionView { last_operation: now, ..t }, Ok(())),
        }
    }
}

/// Pauses the game at time `now`.
pub fn emergency_pause(accounts: &mut EmergencyPause, now: i64) -> (r: Result<(), WagerError>)
    requires
        old(accounts).game_session@.window_fits(),
    ensures
        (final(accounts).game_session@, r) == pause_outcome(old(accounts).game_session@, now),
        final(accounts).authority == old(accounts).authority,
{
    let game_session = &mut accounts.game_session;
    game_session.validate_not_expired(now)?;
    if game_session.status.is_final() {
        return Err(WagerError::InvalidGameState);
    }
    let current_status = game_session.status;
    let current_nonce = game_session.nonce;
    let success = game_session.compare_and_swap_status(
        current_status,
        current_nonce,
        GameStatus::EmergencyPaused,
        Some("emergency_pause"),
        now,
    )?;
    if !success {
        return Err(WagerError::ConcurrentOperation);
    }
    game_session.last_operation = now;
    Ok(())
}

} // verus!
