//! A player joining a team and paying the session bet into the vault.
use vstd::prelude::*;
use vstd::string::{StrSliceExecFns, StringExecFns};
use crate::errors::WagerError;
use crate::pubkey::Pubkey;
use crate::session::{GameSession, SessionView};
use crate::solana::{base58_of, base58_text};
use crate::state::GameStatus;
use crate::team::{TeamView, STARTING_SPAWNS};
use crate::utils::{capped_sum, session_id_is_valid, validate_session_id};
use crate::instructions::{TokenAccountState, TokenTransfer};

verus! {

/// Tokens a joining player must keep beyond the bet.
pub const JOIN_BUFFER: u64 = 1000;
/// How long, in seconds, an unfinished join blocks the next one.
pub const JOIN_TIMEOUT_SECONDS: i64 = 120;

/// The accounts of a join: the player, the session, the player's token
/// account, and the vault with its token account.
pub struct JoinUser {
    pub user: Pubkey,
    pub game_server: Pubkey,
    pub game_session: GameSession,
    pub user_token_account: TokenAccountState,
    pub vault: Pubkey,
    pub vault_token_account: TokenAccountState,
}

/// A join in progress: the slot reserved for the player on `team` and the
/// bet to move into the vault.
#[derive(Debug, Clone, Copy, PartialEq, Eq, Structural)]
pub struct JoinTicket {
    pub team: u8,
    pub slot: usize,
    pub transfer: TokenTransfer,
}

/// The label a join holds the session under: `join_user_` and the first
/// eight characters of the player's base58 address.
pub open spec fn join_label(user: Pubkey) -> Seq<char> {
    let text = base58_text(user);
    "join_user_"@ + text.subrange(0, if text.len() < 8 { text.len() as int } else { 8 })
}

/// Builds the label of a join by `user`.
pub fn join_operation_label(user: Pubkey) -> (label: String)
    ensures
        label@ == join_label(user),
{
    let text = base58_of(user);
    let n = text.as_str().unicode_len();
    let cut = if n < 8 { n } else { 8 };
    let head = text.as_str().substring_char(0, cut);
    "join_user_".to_owned().concat(head)
}

/// The outcome of the first half of a join at time `now`: checks on the
/// session, the team, the player and the token account, then the join
/// lock (a stale one older than two minutes is dropped).
pub open spec fn join_start_outcome(
    s: SessionView,
    session_id: Seq<char>,
    user: Pubkey,
    user_token: TokenAccountState,
    team: u8,
    token_mint: Pubkey,
    now: i64,
) -> (SessionView, Result<JoinTicket, WagerError>) {
    if !session_id_is_valid(session_id) {
        (s, Err(WagerError::InvalidSessionId))
    } else if s.status != GameStatus::WaitingForPlayers {
        (s, Err(WagerError::InvalidGameState))
    } else if team > 1 {
        (s, Err(WagerError::InvalidTeamSelection))
    } else {
        match s.joined(user) {
            Err(e) => (s, Err(e)),
            Ok(true) => (s, Err(WagerError::DuplicatePlayer)),
            Ok(false) => match s.open_slot(team) {
                Err(e) => (s, Err(e)),
                Ok(slot) => if user_token.amount < s.session_bet || user_token.amount < capped_sum(
                    s.session_bet,
                    JOIN_BUFFER,
                ) {
                    (s, Err(WagerError::InsufficientFunds))
                } else if user_token.owner != user {
                    (s, Err(WagerError::InvalidPlayerTokenAccount))
                } else if user_token.mint != token_mint {
                    (s, Err(WagerError::InvalidTokenMint))
                } else if s.current_operation is Some && now - s.operation_started_at <= JOIN_TIMEOUT_SECONDS {
                    (s, Err(WagerError::ConcurrentOperation))
                } else {
                    (
                        SessionView {
                            current_operation: Some(join_label(user)),
                            operation_started_at: now,
                            ..s
                        },
                        Ok(
                            JoinTicket {
                                team: team,
                                slot: slot as usize,
                                transfer: TokenTransfer { counterparty: user, amount: s.session_bet },
                            },
                        ),
                    )
                },
            },
        }
    }
}

/// First half of a join at time `now`: validates the request, reserves the
/// first empty slot of `team` and holds the session under the join label.
/// The caller then moves `transfer.amount` from the player to the vault and
/// reports back with `complete_join_user` or `abort_join_user`.
/// `token_mint` is the mint the program accepts.
pub fn join_user_handler(
    accounts: &mut JoinUser,
    session_id: &str,
    team: u8,
    token_mint: Pubkey,
    now: i64,
) -> (r: Result<JoinTicket, WagerError>)
    requires
        old(accounts).game_session.current_operation is Some ==> i64::MIN <= now
            - old(accounts).game_session.operation_started_at <= i64::MAX,
    ensures
        (final(accounts).game_session@, r) == join_start_outcome(
            old(accounts).game_session@,
            session_id@,
            old(accounts).user,
            old(accounts).user_token_account,
            team,
            token_mint,
            now,
        ),
        final(accounts).user == old(accounts).user,
        final(accounts).user_token_account == old(accounts).user_token_account,
        final(accounts).vault == old(accounts).vault,
        final(accounts).vault_token_account == old(accounts).vault_token_account,
{
    validate_session_id(session_id)?;
    if accounts.game_session.status != GameStatus::WaitingForPlayers {
        return Err(WagerError::InvalidGameState);
    }
    if !(team == 0 || team == 1) {
        return Err(WagerError::InvalidTeamSelection);
    }
    let player_key = accounts.user;
    let joined = accounts.game_session.is_player_already_joined(player_key)?;
    if joined {
        return Err(WagerError::DuplicatePlayer);
    }
    let empty_index = accounts.game_session.get_player_empty_slot(team)?;
    let session_bet = accounts.game_session.session_bet;
    let balance = accounts.user_token_account.amount;
    if !(balance >= session_bet) {
        return Err(WagerError::InsufficientFunds);
    }
    if !(balance >= session_bet.saturating_add(JOIN_BUFFER)) {
        return Err(WagerError::InsufficientFunds);
    }
    if !(accounts.user_token_account.owner == accounts.user) {
        return Err(WagerError::InvalidPlayerTokenAccount);
    }
    if !(accounts.user_token_account.mint == token_mint) {
        return Err(WagerError::InvalidTokenMint);
    }
    if accounts.game_session.current_operation.is_some() {
        if now - accounts.game_session.operation_started_at > JOIN_TIMEOUT_SECONDS {
            accounts.game_session.current_operation = None;
        } else {
            return Err(WagerError::ConcurrentOperation);
        }
    }
    accounts.game_session.current_operation = Some(join_operation_label(player_key));
    accounts.game_session.operation_started_at = now;
    Ok(JoinTicket {
        team,
        slot: empty_index,
        transfer: TokenTransfer { counterparty: player_key, amount: session_bet },
    })
}

/// The transfer of the bet failed: the join lock is dropped.
pub fn abort_join_user(accounts: &mut JoinUser)
    ensures
        final(accounts).game_session@ == (SessionView {
            current_operation: None,
            operation_started_at: 0,
            ..old(accounts).game_session@
        }),
        final(accounts).user == old(accounts).user,
{
    accounts.game_session.current_operation = None;
    accounts.game_session.operation_started_at = 0;
}

/// The outcome of the second half of a join, after the bet reached the
/// vault: the player takes the reserved slot with fresh statistics, the
/// team's bet total grows (within `max_team_bet`), the operation is
/// recorded, and a now full game starts; otherwise the join label is
/// dropped.
pub open spec fn join_finish_outcome(
    s: SessionView,
    user: Pubkey,
    ticket: JoinTicket,
    max_team_bet: u64,
    now: i64,
) -> (SessionView, Result<(), WagerError>) {
    let t = s.team_of(ticket.team);
    let i = ticket.slot as int;
    if t.players[i] != Pubkey::zero() {
        (s, Err(WagerError::ConcurrentOperation))
    } else {
        let seated = TeamView {
            players: t.players.update(i, user),
            player_spawns: t.player_spawns.update(i, STARTING_SPAWNS),
            player_kills: t.player_kills.update(i, 0),
            ..t
        };
        if t.total_bet + s.session_bet > u64::MAX {
            (s.with_team(ticket.team, seated), Err(WagerError::ArithmeticError))
        } else {
            let paid = s.with_team(ticket.team, TeamView { total_bet: (t.total_bet + s.session_bet) as u64, ..seated });
            if t.total_bet + s.session_bet > max_team_bet {
                (paid, Err(WagerError::ArithmeticError))
            } else {
                let (k, rk) = paid.bookkept(now);
                if rk is Err {
                    (k, rk)
                } else {
                    match k.all_filled() {
                        Err(e) => (k, Err(e)),
                        Ok(true) => {
                            let (c, rc) = k.swapped(
                                GameStatus::WaitingForPlayers,
                                k.nonce,
                                GameStatus::InProgress,
                                Some("auto_start_game"@),
                                now,
                            );
                            match rc {
                                Err(e) => (c, Err(e)),
                                Ok(_) => (c, Ok(())),
                            }
                        },
                        Ok(false) => (SessionView { current_operation: None, operation_started_at: 0, ..k }, Ok(())),
                    }
                }
            }
        }
    }
}

/// Whether a join that starts the game leaves a rate window the start can
/// count against: when the seat is taken, the bet booked and both teams
/// are then full, the window the bookkeeping left must end before the end
/// of time (else the window arithmetic of the start overflows).
pub open spec fn join_autostart_fits(
    s: SessionView,
    user: Pubkey,
    ticket: JoinTicket,
    max_team_bet: u64,
    now: i64,
) -> bool {
    let t = s.team_of(ticket.team);
    let i = ticket.slot as int;
    let seated = TeamView {
        players: t.players.update(i, user),
        player_spawns: t.player_spawns.update(i, STARTING_SPAWNS),
        player_kills: t.player_kills.update(i, 0),
        total_bet: (t.total_bet + s.session_bet) as u64,
        ..t
    };
    let (k, rk) = s.with_team(ticket.team, seated).bookkept(now);
    (t.players[i] == Pubkey::zero() && t.total_bet + s.session_bet <= max_team_bet && rk is Ok
        && k.all_filled() == Ok::<bool, WagerError>(true)) ==> k.window_fits()
}

/// Second half of a join, once the bet is in the vault: seats the player
/// named in `ticket`. `max_team_bet` caps a team's total bet.
pub fn complete_join_user(
    accounts: &mut JoinUser,
    ticket: JoinTicket,
    max_team_bet: u64,
    now: i64,
) -> (r: Result<(), WagerError>)
    requires
        ticket.slot < 5,
        old(accounts).game_session@.window_fits(),
        join_autostart_fits(old(accounts).game_session@, old(accounts).user, ticket, max_team_bet, now),
    ensures
        (final(accounts).game_session@, r) == join_finish_outcome(
            old(accounts).game_session@,
            old(accounts).user,
            ticket,
            max_team_bet,
            now,
        ),
        final(accounts).user == old(accounts).user,
{
    let player_key = accounts.user;
    let session_bet = accounts.game_session.session_bet;
    let index = ticket.slot;
    let ghost start = accounts.game_session@;
    let mut selected_team = if ticket.team == 0 {
        accounts.game_session.team_a
    } else {
        accounts.game_session.team_b
    };
    assert(selected_team@ == start.team_of(ticket.team));
    if !(selected_team.players[index] == Pubkey::default()) {
        return Err(WagerError::ConcurrentOperation);
    }
    selected_team.players[index] = player_key;
    selected_team.player_spawns[index] = STARTING_SPAWNS;
    selected_team.player_kills[index] = 0;
    let new_total = selected_team.total_bet.checked_add(session_bet);
    if let Some(v) = new_total {
        selected_team.total_bet = v;
    }
    if ticket.team == 0 {
        accounts.game_session.team_a = selected_team;
    } else {
        accounts.game_session.team_b = selected_team;
    }
    if new_total.is_none() {
        return Err(WagerError::ArithmeticError);
    }
    if !(selected_team.total_bet <= max_team_bet) {
        return Err(WagerError::ArithmeticError);
    }
    accounts.game_session.update_operation_tracking(now)?;
    if accounts.game_session.check_all_filled()? {
        let current_nonce = accounts.game_session.nonce;
        let _started = accounts.game_session.compare_and_swap_status(
            GameStatus::WaitingForPlayers,
            current_nonce,
            GameStatus::InProgress,
            Some("auto_start_game"),
            now,
        )?;
    } else {
        accounts.game_session.current_operation = None;
        accounts.game_session.operation_started_at = 0;
    }
    Ok(())
}

} // verus!
