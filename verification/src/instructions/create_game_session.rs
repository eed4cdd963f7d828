//! Opening a new game session with its vault.
use vstd::prelude::*;
use crate::errors::WagerError;
use crate::pubkey::Pubkey;
use crate::session::{initial_session, GameSession, SessionView};
use crate::solana::system_program_id;
use crate::state::{GameMode, MAX_BET, MIN_BET};
use crate::utils::{
    session_hash, session_id_is_valid, validate_bet_amount, validate_session_id,
    MAX_BET_AMOUNT, MIN_BET_AMOUNT,
};
use crate::instructions::TokenAccountState;

verus! {

/// Largest pot a session may put at stake.
pub const MAX_TOTAL_POT: u64 = 10_000_000_000_000;

/// What the logic reads of the token mint.
#[derive(Debug, Clone, Copy, PartialEq, Eq, Structural)]
pub struct MintState {
    pub key: Pubkey,
    pub is_initialized: bool,
}

/// The accounts of a session creation: the game server (the session's
/// authority), the new session account, the vault and its token account,
/// the mint, and the bump seeds found for the session and the vault.
pub struct CreateGameSession {
    pub game_server: Pubkey,
    pub game_session: GameSession,
    pub vault: Pubkey,
    pub vault_token_account: TokenAccountState,
    pub mint: MintState,
    pub game_session_bump: u8,
    pub vault_bump: u8,
}

/// The checks made before the session is initialized.
pub open spec fn creation_checks(
    session_id: Seq<char>,
    game_server: Pubkey,
    mint: MintState,
    bet_amount: u64,
    game_mode: GameMode,
    token_mint: Pubkey,
) -> Result<(), WagerError> {
    if !session_id_is_valid(session_id) {
        Err(WagerError::InvalidSessionId)
    } else if !(MIN_BET_AMOUNT <= bet_amount <= MAX_BET_AMOUNT) {
        Err(WagerError::InvalidBetAmount)
    } else if game_server == Pubkey::zero() {
        Err(WagerError::AuthorityMismatch)
    } else if mint.key != token_mint {
        Err(WagerError::InvalidMint)
    } else if !mint.is_initialized {
        Err(WagerError::InvalidTokenMint)
    } else if bet_amount > u64::MAX / 20 {
        Err(WagerError::InvalidBetAmount)
    } else if bet_amount * game_mode.team_size() * 2 > MAX_TOTAL_POT {
        Err(WagerError::InvalidBetAmount)
    } else {
        Ok(())
    }
}

/// The outcome of creating a session at time `now`: after the checks the
/// session is initialized (its hash that of the identifier, the game server
/// and `now`), its integrity checked, then the vault's token account.
pub open spec fn creation_outcome(
    s: SessionView,
    session_id: Seq<char>,
    accounts_game_server: Pubkey,
    vault: Pubkey,
    vault_token: TokenAccountState,
    mint: MintState,
    game_session_bump: u8,
    vault_bump: u8,
    bet_amount: u64,
    game_mode: GameMode,
    token_mint: Pubkey,
    now: i64,
    initial_nonce: u64,
) -> (SessionView, Result<(), WagerError>) {
    match creation_checks(session_id, accounts_game_server, mint, bet_amount, game_mode, token_mint) {
        Err(e) => (s, Err(e)),
        Ok(_) => if !(MIN_BET <= bet_amount <= MAX_BET) {
            (s, Err(WagerError::InvalidBetAmount))
        } else {
            let t = initial_session(
                session_id,
                accounts_game_server,
                bet_amount,
                game_mode,
                game_session_bump,
                vault_bump,
                now,
                initial_nonce,
                session_hash(session_id, accounts_game_server, now),
            );
            match t.integrity(session_hash(session_id, accounts_game_server, now)) {
                Err(e) => (t, Err(e)),
                Ok(_) => if vault_token.mint == token_mint && vault_token.owner == vault && vault_token.amount == 0 {
                    (t, Ok(()))
                } else {
                    (t, Err(WagerError::InvalidPlayerTokenAccount))
                },
            }
        },
    }
}

/// Creates a session at time `now` with bet `bet_amount` in `game_mode`,
/// starting from nonce `initial_nonce`. `token_mint` is the mint the
/// program accepts.
pub fn create_game_session_handler(
    accounts: &mut CreateGameSession,
    session_id: String,
    bet_amount: u64,
    game_mode: GameMode,
    token_mint: Pubkey,
    now: i64,
    initial_nonce: u64,
) -> (r: Result<(), WagerError>)
    ensures
        (final(accounts).game_session@, r) == creation_outcome(
                old(accounts).game_session@,
                session_id@,
                old(accounts).game_server,
                old(accounts).vault,
                old(accounts).vault_token_account,
                old(accounts).mint,
                old(accounts).game_session_bump,
                old(accounts).vault_bump,
                bet_amount,
                game_mode,
                token_mint,
                now,
                initial_nonce,
            ),
        final(accounts).game_server == old(accounts).game_server,
        final(accounts).vault == old(accounts).vault,
        final(accounts).vault_token_account == old(accounts).vault_token_account,
        final(accounts).mint == old(accounts).mint,
{
    validate_session_id(session_id.as_str())?;
    validate_bet_amount(bet_amount)?;
    let system_id = system_program_id();
    if !(accounts.game_server != Pubkey::default() && accounts.game_server != system_id) {
        return Err(WagerError::AuthorityMismatch);
    }
    if !(accounts.mint.key == token_mint) {
        return Err(WagerError::InvalidMint);
    }
    if !accounts.mint.is_initialized {
        return Err(WagerError::InvalidTokenMint);
    }
    if !(bet_amount <= u64::MAX / 20) {
        return Err(WagerError::InvalidBetAmount);
    }
    let players_per_team = game_mode.players_per_team();
    if !(players_per_team >= 1 && players_per_team <= 5) {
        return Err(WagerError::InvalidGameModeForOperation);
    }
    assert(bet_amount * players_per_team * 2 <= u64::MAX) by (nonlinear_arith)
        requires
            bet_amount <= u64::MAX / 20,
            players_per_team <= 5,
    ;
    let max_possible_pot = bet_amount * (players_per_team as u64) * 2;
    if !(max_possible_pot <= MAX_TOTAL_POT) {
        return Err(WagerError::InvalidBetAmount);
    }
    let game_server = accounts.game_server;
    let game_session_bump = accounts.game_session_bump;
    let vault_bump = accounts.vault_bump;
    accounts.game_session.initialize(
        session_id,
        game_server,
        bet_amount,
        game_mode,
        game_session_bump,
        vault_bump,
        now,
        initial_nonce,
    )?;
    accounts.game_session.validate_integrity()?;
    if !(accounts.vault_token_account.mint == token_mint && accounts.vault_token_account.owner == accounts.vault
        && accounts.vault_token_account.amount == 0) {
        return Err(WagerError::InvalidPlayerTokenAccount);
    }
    Ok(())
}

} // verus!
