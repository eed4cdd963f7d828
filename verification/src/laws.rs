//! Properties of the library that span its operations, stated over the
//! same models the operations' contracts use.
use vstd::prelude::*;
use crate::errors::WagerError;
use crate::pubkey::Pubkey;
use crate::session::{initial_id_ok, initial_session, keeps_lock, roster, SessionView};
use crate::utils::{
    lemma_id_chars_are_ascii, pair_ok, remaining_accounts_check, session_hash, session_id_is_valid,
};
use crate::state::{
    bounded_byte_sum, GameMode, GameStatus, GAME_TIMEOUT_SECONDS, MIN_BET, MAX_BET, MAX_KILLS, MAX_OPERATIONS_PER_MINUTE, MAX_SPAWNS, MAX_TOTAL_ACTIVITY,
};
use crate::team::{lemma_position_of, position_of, TeamView, STARTING_SPAWNS};
use crate::instructions::TokenAccountState;
use crate::instructions::record_kill::kill_report_outcome;
use crate::instructions::emergency_pause::pause_outcome;
use crate::instructions::refund_wager::MAX_REFUND_AMOUNT;
use crate::instructions::distribute_winnings::{
    earnings_plan, pay_spawn_distribution_outcome, winner_distribution_outcome, winner_plan,
};
use crate::instructions::pay_to_spawn::{spawn_purchase_outcome, SPAWN_INCREMENT};
use crate::instructions::refund_wager::refund_start_outcome;
use crate::instructions::join_user::{join_finish_outcome, join_start_outcome, JoinTicket};

verus! {

/// A compare-and-swap on a locked session is refused as a concurrent
/// operation and leaves the session exactly as it was.
pub proof fn law_locked_swap_refused(
    s: SessionView,
    expected_status: GameStatus,
    expected_nonce: u64,
    new_status: GameStatus,
    label: Option<Seq<char>>,
    now: i64,
)
    requires
        s.locked,
    ensures
        s.swapped(expected_status, expected_nonce, new_status, label, now) == (
            s,
            Err::<bool, WagerError>(WagerError::ConcurrentOperation),
        ),
{
}

/// A compare-and-swap that expects a stale status or nonce answers
/// `Ok(false)`: status and nonce stay, and the lock is free afterwards.
pub proof fn law_stale_swap_declined(
    s: SessionView,
    expected_status: GameStatus,
    expected_nonce: u64,
    new_status: GameStatus,
    label: Option<Seq<char>>,
    now: i64,
)
    requires
        !s.locked,
        s.status != expected_status || s.nonce != expected_nonce,
    ensures
        ({
            let (t, r) = s.swapped(expected_status, expected_nonce, new_status, label, now);
            &&& r == Ok::<bool, WagerError>(false)
            &&& t == s.released()
            &&& t.status == s.status
            &&& t.nonce == s.nonce
            &&& !t.locked
        }),
{
}

/// A successful compare-and-swap follows the life-cycle graph: it found
/// the expected status and nonce, the new status may follow the old one,
/// the new status is installed and the nonce advanced by exactly one.
pub proof fn law_swap_follows_life_cycle(
    s: SessionView,
    expected_status: GameStatus,
    expected_nonce: u64,
    new_status: GameStatus,
    label: Option<Seq<char>>,
    now: i64,
)
    ensures
        ({
            let (t, r) = s.swapped(expected_status, expected_nonce, new_status, label, now);
            r == Ok::<bool, WagerError>(true) ==> {
                &&& !s.locked
                &&& s.status == expected_status
                &&& s.nonce == expected_nonce
                &&& s.status.may_become(new_status)
                &&& t.status == new_status
                &&& t.nonce == s.nonce + 1
            }
        }),
{
}

/// After a successful compare-and-swap into a long-running phase (play,
/// distribution, refund) the lock stays held under the operation's label;
/// after one into any other status the lock is free.
pub proof fn law_swap_lock_after_success(
    s: SessionView,
    expected_status: GameStatus,
    expected_nonce: u64,
    new_status: GameStatus,
    label: Option<Seq<char>>,
    now: i64,
)
    ensures
        ({
            let (t, r) = s.swapped(expected_status, expected_nonce, new_status, label, now);
            r == Ok::<bool, WagerError>(true) ==> {
                &&& keeps_lock(new_status) ==> t.locked && t.current_operation == label
                    && t.operation_started_at == now
                &&& !keeps_lock(new_status) ==> !t.locked && t.current_operation is None
            }
        }),
{
}

/// A finished game (completed, cancelled or expired) can only be
/// emergency-paused, and a game becomes completed only out of a running
/// distribution.
pub proof fn law_finished_games_stay_finished(from: GameStatus, to: GameStatus)
    ensures
        from.is_terminal() && from.may_become(to) ==> to == GameStatus::EmergencyPaused,
        from.may_become(GameStatus::Completed) ==> from == GameStatus::DistributionInProgress,
{
}

/// The rate limit holds: a session that counted at most
/// `MAX_OPERATIONS_PER_MINUTE` operations in its window still does after
/// one more operation is counted or refused, and an admitted operation is
/// counted exactly once.
pub proof fn law_rate_limit_bounded(s: SessionView, now: i64)
    requires
        s.operations_in_window <= MAX_OPERATIONS_PER_MINUTE,
    ensures
        ({
            let (t, r) = s.rate_limited(now);
            &&& t.operations_in_window <= MAX_OPERATIONS_PER_MINUTE
            &&& r is Ok ==> t.operations_in_window >= 1
            &&& r is Ok && t.last_operation_window == s.last_operation_window
                ==> t.operations_in_window == s.operations_in_window + 1
            &&& r is Err ==> r == Err::<(), WagerError>(WagerError::RateLimitExceeded)
                && t.operations_in_window == MAX_OPERATIONS_PER_MINUTE
        }),
{
}

/// Every recorded state change advances the nonce by exactly one and
/// counts one operation.
pub proof fn law_bookkeeping_advances_nonce(s: SessionView, now: i64)
    ensures
        ({
            let (t, r) = s.bookkept(now);
            r is Ok ==> t.nonce == s.nonce + 1 && t.operation_count == s.operation_count + 1
                && t.last_operation == now
        }),
{
}

/// A recorded kill moves one unit of activity: the killer's kills go up by
/// one, the victim's spawns down by one, the status stays and the nonce
/// advances by one.
pub proof fn law_kill_moves_one_life(
    s: SessionView,
    killer_team: u8,
    killer: Pubkey,
    victim_team: u8,
    victim: Pubkey,
    now: i64,
)
    ensures
        ({
            let (t, r) = s.kill_recorded(killer_team, killer, victim_team, victim, now);
            r is Ok ==> {
                &&& s.slot_of(killer_team, killer) is Ok
                &&& s.slot_of(victim_team, victim) is Ok
                &&& {
                    let ki = s.slot_of(killer_team, killer)->Ok_0;
                    let vi = s.slot_of(victim_team, victim)->Ok_0;
                    let kt = s.team_of(killer_team);
                    let vt = s.team_of(victim_team);
                    &&& killer_team != victim_team
                    &&& t.team_of(killer_team).player_kills == kt.player_kills.update(
                        ki,
                        (kt.player_kills[ki] + 1) as u8,
                    )
                    &&& t.team_of(killer_team).player_spawns == kt.player_spawns
                    &&& t.team_of(victim_team).player_spawns == vt.player_spawns.update(
                        vi,
                        (vt.player_spawns[vi] - 1) as u8,
                    )
                    &&& t.team_of(victim_team).player_kills == vt.player_kills
                    &&& t.team_of(killer_team).players == kt.players
                    &&& t.team_of(victim_team).players == vt.players
                    &&& t.status == s.status
                    &&& t.nonce == s.nonce + 1
                }
            }
        }),
{
}

/// Every kill and spawn count of the seated slots is within `MAX_KILLS`
/// and `MAX_SPAWNS`.
pub open spec fn stats_sane(s: SessionView) -> bool {
    s.team_a.stats_within_limits(s.team_size()) && s.team_b.stats_within_limits(s.team_size())
}

/// Kills and spawn purchases keep every count within its limit: a session
/// whose counts are sane still has sane counts after a kill is recorded
/// or spawns are bought, whatever the outcome.
pub proof fn law_counts_stay_within_limits(
    s: SessionView,
    killer_team: u8,
    killer: Pubkey,
    victim_team: u8,
    victim: Pubkey,
    team: u8,
    player_index: int,
    now: i64,
)
    requires
        s.well_formed(),
        stats_sane(s),
    ensures
        stats_sane(s.kill_recorded(killer_team, killer, victim_team, victim, now).0),
        stats_sane(s.spawns_added(team, player_index, now).0),
{
    let n = s.team_size();
    let (t, r) = s.kill_recorded(killer_team, killer, victim_team, victim, now);
    if t != s {
        let ki = s.slot_of(killer_team, killer)->Ok_0;
        let vi = s.slot_of(victim_team, victim)->Ok_0;
        lemma_position_of(s.team_of(killer_team).players, n, killer);
        lemma_position_of(s.team_of(victim_team).players, n, victim);
        let kt = s.team_of(killer_team);
        let vt = s.team_of(victim_team);
        let u = s.with_team(
            killer_team,
            TeamView { player_kills: kt.player_kills.update(ki, (kt.player_kills[ki] + 1) as u8), ..kt },
        ).with_team(
            victim_team,
            TeamView { player_spawns: vt.player_spawns.update(vi, (vt.player_spawns[vi] - 1) as u8), ..vt },
        );
        lemma_bookkept_keeps_teams(u, now);
        assert(t.team_a == u.team_a && t.team_b == u.team_b);
    }
    let (t2, r2) = s.spawns_added(team, player_index, now);
    if t2 != s {
        let tm = s.team_of(team);
        let v = bounded_byte_sum(tm.player_spawns[player_index], s.game_mode.spawns_per_purchase(), MAX_SPAWNS)->Ok_0;
        let u = s.with_team(team, TeamView { player_spawns: tm.player_spawns.update(player_index, v), ..tm });
        lemma_bookkept_keeps_teams(u, now);
        assert(t2.team_a == u.team_a && t2.team_b == u.team_b);
    }
}

/// A player's earnings never exceed the most any player can earn: the
/// most activity times the highest bet.
pub proof fn law_earnings_bounded(s: SessionView, player: Pubkey)
    ensures
        s.earnings_of(player) matches Ok(v) ==> v <= MAX_TOTAL_ACTIVITY * MAX_BET,
{
}

/// Earnings never overflow: for a seated player of a session with sane
/// counts and a bet within `MAX_BET`, the earnings are always computed, and
/// they are the player's kills plus spawns times a tenth of the bet.
pub proof fn law_earnings_never_overflow(s: SessionView, player: Pubkey)
    requires
        stats_sane(s),
        s.session_bet <= MAX_BET,
        player != Pubkey::zero(),
        s.stats_of(player) is Some,
    ensures
        ({
            let (kills, spawns) = s.stats_of(player)->Some_0;
            s.earnings_of(player) == Ok::<u64, WagerError>((((kills + spawns) * s.session_bet) / 10) as u64)
        }),
{
    let n = s.team_size();
    lemma_position_of(s.team_a.players, n, player);
    lemma_position_of(s.team_b.players, n, player);
    let (kills, spawns) = s.stats_of(player)->Some_0;
    assert(kills <= MAX_KILLS && spawns <= MAX_SPAWNS);
    let a: int = kills + spawns;
    let bet: int = s.session_bet as int;
    assert(a * 1_000_000 * bet <= 100 * 1_000_000 * 100_000_000) by (nonlinear_arith)
        requires
            0 <= a <= 100,
            0 <= bet <= 100_000_000,
    ;
    assert((a * 1_000_000 * bet) / 10_000_000 == (a * bet) / 10) by (nonlinear_arith)
        requires
            0 <= a,
            0 <= bet,
    ;
    assert((a * bet) / 10 <= 100 * 100_000_000) by (nonlinear_arith)
        requires
            0 <= a <= 100,
            0 <= bet <= 100_000_000,
    ;
}

/// A pay-to-spawn payout pays each payee exactly the earnings
/// `calculate_player_earnings` reports for that player, for every session
/// whose bet is within `MAX_BET`.
pub proof fn law_payouts_match_earnings(s: SessionView, players: Seq<Pubkey>)
    requires
        s.session_bet <= MAX_BET,
    ensures
        earnings_plan(s, players) matches Ok((list, total)) ==> forall|k: int|
            0 <= k < list.len() ==> s.earnings_of(#[trigger] list[k].counterparty) == Ok::<u64, WagerError>(
                list[k].amount,
            ),
    decreases players.len(),
{
    if players.len() > 0 {
        law_payouts_match_earnings(s, players.drop_last());
        if earnings_plan(s, players) is Ok {
            let p = players.last();
            let ks = s.activity_of(p)->Ok_0;
            if ks != 0 {
                let (kills, spawns) = s.stats_of(p)->Some_0;
                let a: int = kills + spawns;
                let bet: int = s.session_bet as int;
                assert(a == ks);
                assert(a * 1_000_000 * bet <= 100 * 1_000_000 * 100_000_000) by (nonlinear_arith)
                    requires
                        0 <= a <= 100,
                        0 <= bet <= 100_000_000,
                ;
                assert((a * 1_000_000 * bet) / 10_000_000 == (a * bet) / 10) by (nonlinear_arith)
                    requires
                        0 <= a,
                        0 <= bet,
                ;
                assert((a * bet) / 10 <= 100 * 100_000_000) by (nonlinear_arith)
                    requires
                        0 <= a <= 100,
                        0 <= bet <= 100_000_000,
                ;
            }
        }
    }
}

/// A session reported full has every slot taken and nobody playing on
/// both teams.
pub proof fn law_full_session_distinct(s: SessionView)
    ensures
        s.all_filled() == Ok::<bool, WagerError>(true) ==> {
            &&& forall|i: int|
                0 <= i < s.team_size() ==> #[trigger] s.team_a.players[i] != Pubkey::zero()
                    && s.team_b.players[i] != Pubkey::zero()
            &&& forall|i: int, j: int|
                0 <= i < s.team_size() && 0 <= j < s.team_size() ==> #[trigger] s.team_a.players[i]
                    != #[trigger] s.team_b.players[j]
        },
{
    if s.all_filled() == Ok::<bool, WagerError>(true) {
        let n = s.team_size();
        assert forall|i: int| 0 <= i < n implies #[trigger] s.team_a.players[i] != Pubkey::zero()
            && s.team_b.players[i] != Pubkey::zero() by {
            if s.team_a.players[i] == Pubkey::zero() || s.team_b.players[i] == Pubkey::zero() {
                assert(0 <= i < n && (s.team_a.players[i] == Pubkey::zero() || s.team_b.players[i]
                    == Pubkey::zero()));
            }
        }
        assert forall|i: int, j: int| 0 <= i < n && 0 <= j < n implies #[trigger] s.team_a.players[i]
            != #[trigger] s.team_b.players[j] by {
            if s.team_a.players[i] == s.team_b.players[j] {
                assert(exists|x: int, y: int|
                    0 <= x < n && 0 <= y < n && #[trigger] s.team_a.players[x] == #[trigger] s.team_b.players[y]);
            }
        }
    }
}

/// The roster lists at most two players per slot, none of them empty,
/// each taken from a slot of one of the teams.
pub proof fn law_roster_players(a: Seq<Pubkey>, b: Seq<Pubkey>, n: int)
    requires
        0 <= n,
    ensures
        roster(a, b, n).len() <= 2 * n,
        forall|k: int|
            0 <= k < roster(a, b, n).len() ==> #[trigger] roster(a, b, n)[k] != Pubkey::zero() && exists|
                i: int,
            |
                0 <= i < n && (roster(a, b, n)[k] == a[i] || roster(a, b, n)[k] == b[i]),
    decreases n,
{
    if n > 0 {
        law_roster_players(a, b, n - 1);
        let r = roster(a, b, n - 1);
        assert forall|k: int| 0 <= k < roster(a, b, n).len() implies #[trigger] roster(a, b, n)[k]
            != Pubkey::zero() && exists|i: int|
            0 <= i < n && (roster(a, b, n)[k] == a[i] || roster(a, b, n)[k] == b[i]) by {
            if k < r.len() {
                assert(roster(a, b, n)[k] == r[k]);
                let i = choose|i: int| 0 <= i < n - 1 && (r[k] == a[i] || r[k] == b[i]);
                assert(0 <= i < n && (roster(a, b, n)[k] == a[i] || roster(a, b, n)[k] == b[i]));
            } else {
                assert(0 <= n - 1 < n && (roster(a, b, n)[k] == a[n - 1] || roster(a, b, n)[k] == b[n - 1]));
            }
        }
    }
}

/// The roster names every seated player: each taken slot of either team
/// among the first `n` appears in it. A refund plan, which is the roster,
/// thus reaches every player who paid in.
pub proof fn law_roster_lists_every_player(a: Seq<Pubkey>, b: Seq<Pubkey>, n: int)
    ensures
        forall|i: int| 0 <= i < n && #[trigger] a[i] != Pubkey::zero() ==> roster(a, b, n).contains(a[i]),
        forall|i: int| 0 <= i < n && #[trigger] b[i] != Pubkey::zero() ==> roster(a, b, n).contains(b[i]),
    decreases n,
{
    if n > 0 {
        law_roster_lists_every_player(a, b, n - 1);
        let r = roster(a, b, n - 1);
        let r1 = if a[n - 1] != Pubkey::zero() { r.push(a[n - 1]) } else { r };
        let full = roster(a, b, n);
        assert(full == if b[n - 1] != Pubkey::zero() { r1.push(b[n - 1]) } else { r1 });
        assert forall|x: Pubkey| r.contains(x) implies full.contains(x) by {
            let k = choose|k: int| 0 <= k < r.len() && r[k] == x;
            assert(r1[k] == x);
            assert(full[k] == x);
        }
        if a[n - 1] != Pubkey::zero() {
            assert(r1[r.len() as int] == a[n - 1]);
            assert(full[r.len() as int] == a[n - 1]);
        }
        if b[n - 1] != Pubkey::zero() {
            assert(full[r1.len() as int] == b[n - 1]);
        }
    }
}

/// The lock is only ever taken under a name: a compare-and-swap given an
/// operation label keeps "locked implies a current operation".
pub proof fn law_lock_held_under_a_name(
    s: SessionView,
    expected_status: GameStatus,
    expected_nonce: u64,
    new_status: GameStatus,
    label: Option<Seq<char>>,
    now: i64,
)
    requires
        label is Some,
        s.locked ==> s.current_operation is Some,
    ensures
        ({
            let (t, r) = s.swapped(expected_status, expected_nonce, new_status, label, now);
            t.locked ==> t.current_operation is Some
        }),
{
}

/// A freshly initialized session passes its own integrity check: the
/// stored hash is the one the check recomputes from identifier, authority
/// and creation time. (An all-zero authority or a creation time at or
/// before zero is refused by the check's other rules.)
pub proof fn law_fresh_session_is_consistent(
    id: Seq<char>,
    authority: Pubkey,
    bet: u64,
    mode: GameMode,
    bump: u8,
    vault_bump: u8,
    now: i64,
    nonce: u64,
)
    requires
        initial_id_ok(id),
        MIN_BET <= bet <= MAX_BET,
        authority != Pubkey::zero(),
        now > 0,
    ensures
        ({
            let s = initial_session(id, authority, bet, mode, bump, vault_bump, now, nonce, session_hash(id, authority, now));
            s.integrity(session_hash(s.session_id, s.authority, s.created_at)) == Ok::<(), WagerError>(())
        }),
{
    lemma_id_chars_are_ascii(id);
}

/// A lock is cleared only by the session's authority, only when it is free
/// or has outlived its timeout, and leaves the session unlocked.
pub proof fn law_lock_cleared_only_when_stale(s: SessionView, authority: Pubkey, now: i64)
    ensures
        ({
            let (t, r) = s.lock_cleared(authority, now);
            &&& r is Ok ==> s.authority == authority && !t.locked && t.current_operation is None
                && (s.locked ==> now - s.operation_started_at >= s.lock_timeout())
            &&& r is Err ==> t == s
        }),
{
}

/// A spawn purchase is never completed: the purchase grants the mode's
/// spawns per purchase (three, five or seven), and the handler then finds
/// the slot short of the ten spawns it expects and reports corruption.
pub proof fn law_spawn_purchase_never_completes(
    s: SessionView,
    session_id: Seq<char>,
    user: Pubkey,
    user_token: TokenAccountState,
    vault: Pubkey,
    vault_token: TokenAccountState,
    team: u8,
    token_mint: Pubkey,
    now: i64,
    recomputed_hash: Seq<u8>,
)
    requires
        s.well_formed(),
    ensures
        spawn_purchase_outcome(
            s,
            session_id,
            user,
            user_token,
            vault,
            vault_token,
            team,
            token_mint,
            now,
            recomputed_hash,
        ).1 is Err,
{
    if team <= 1 && s.slot_of(team, user) is Ok {
        let i = s.slot_of(team, user)->Ok_0;
        lemma_position_of(s.team_of(team).players, s.team_size(), user);
        let tm = s.team_of(team);
        let current = tm.player_spawns[i];
        let (t, r) = s.spawns_added(team, i, now);
        if r is Ok {
            let v = bounded_byte_sum(current, s.game_mode.spawns_per_purchase(), MAX_SPAWNS)->Ok_0;
            let u = s.with_team(team, TeamView { player_spawns: tm.player_spawns.update(i, v), ..tm });
            assert(u.team_of(team).player_spawns == tm.player_spawns.update(i, v));
            assert(t.team_of(team) == u.team_of(team));
            assert(t.team_of(team).player_spawns[i] == v);
            assert(v == current + s.game_mode.spawns_per_purchase());
            assert(t.team_of(team).player_spawns[i] != current + SPAWN_INCREMENT);
        }
    }
}

/// Neither kind of payout ever completes: both move a running game
/// straight to `Completed`, which the life cycle allows only out of a
/// running distribution.
pub proof fn law_payouts_never_complete(
    s: SessionView,
    session_id: Seq<char>,
    game_server: Pubkey,
    remaining: Seq<Pubkey>,
    vault_balance: u64,
    winning_team: u8,
    now: i64,
    recomputed_hash: Seq<u8>,
)
    ensures
        pay_spawn_distribution_outcome(s, session_id, remaining, vault_balance, now, recomputed_hash).1 is Err,
        winner_distribution_outcome(s, session_id, game_server, remaining, vault_balance, winning_team, now).1 is Err,
{
}

/// A refund of an expired session never starts: the life cycle does not
/// lead from `Expired` to `RefundInProgress`.
pub proof fn law_expired_refund_never_starts(
    s: SessionView,
    session_id: Seq<char>,
    remaining: Seq<Pubkey>,
    vault_balance: u64,
    now: i64,
)
    requires
        s.status == GameStatus::Expired,
    ensures
        refund_start_outcome(s, session_id, remaining, vault_balance, now).1 is Err,
{
}

/// No player holds a slot on both teams.
pub open spec fn sides_disjoint(s: SessionView) -> bool {
    forall|i: int, j: int|
        0 <= i < s.team_size() && 0 <= j < s.team_size() && #[trigger] s.team_a.players[i] != Pubkey::zero()
            ==> s.team_a.players[i] != #[trigger] s.team_b.players[j]
}

proof fn lemma_bookkept_keeps_teams(s: SessionView, now: i64)
    ensures
        s.bookkept(now).0.team_a == s.team_a,
        s.bookkept(now).0.team_b == s.team_b,
        s.bookkept(now).0.game_mode == s.game_mode,
{
}

proof fn lemma_swapped_keeps_teams(
    s: SessionView,
    expected_status: GameStatus,
    expected_nonce: u64,
    new_status: GameStatus,
    label: Option<Seq<char>>,
    now: i64,
)
    ensures
        s.swapped(expected_status, expected_nonce, new_status, label, now).0.team_a == s.team_a,
        s.swapped(expected_status, expected_nonce, new_status, label, now).0.team_b == s.team_b,
        s.swapped(expected_status, expected_nonce, new_status, label, now).0.game_mode == s.game_mode,
{
}

proof fn lemma_join_finish_seats(s: SessionView, user: Pubkey, ticket: JoinTicket, max_team_bet: u64, now: i64)
    ensures
        ({
            let t = join_finish_outcome(s, user, ticket, max_team_bet, now).0;
            let seated = s.team_of(ticket.team).players.update(ticket.slot as int, user);
            &&& t.game_mode == s.game_mode
            &&& ticket.team == 0 ==> t.team_b.players == s.team_b.players && (t.team_a.players
                == s.team_a.players || t.team_a.players == seated)
            &&& ticket.team != 0 ==> t.team_a.players == s.team_a.players && (t.team_b.players
                == s.team_b.players || t.team_b.players == seated)
        }),
{
    let tm = s.team_of(ticket.team);
    let i = ticket.slot as int;
    if tm.players[i] == Pubkey::zero() && tm.total_bet + s.session_bet <= u64::MAX && tm.total_bet
        + s.session_bet <= max_team_bet {
        let seated = TeamView {
            players: tm.players.update(i, user),
            player_spawns: tm.player_spawns.update(i, STARTING_SPAWNS),
            player_kills: tm.player_kills.update(i, 0),
            ..tm
        };
        let paid = s.with_team(ticket.team, TeamView { total_bet: (tm.total_bet + s.session_bet) as u64, ..seated });
        lemma_bookkept_keeps_teams(paid, now);
        let k = paid.bookkept(now).0;
        lemma_swapped_keeps_teams(
            k,
            GameStatus::WaitingForPlayers,
            k.nonce,
            GameStatus::InProgress,
            Some("auto_start_game"@),
            now,
        );
    }
}

/// Joining keeps the teams apart: when both halves of a join run, the
/// player they seat was on neither team, so no player ends up holding a
/// slot on both sides, whatever the second half answers.
pub proof fn law_join_keeps_sides_disjoint(
    s: SessionView,
    session_id: Seq<char>,
    user: Pubkey,
    user_token: TokenAccountState,
    team: u8,
    token_mint: Pubkey,
    now: i64,
    max_team_bet: u64,
    later: i64,
)
    requires
        s.well_formed(),
        sides_disjoint(s),
    ensures
        ({
            let (s1, r1) = join_start_outcome(s, session_id, user, user_token, team, token_mint, now);
            r1 is Ok ==> sides_disjoint(join_finish_outcome(s1, user, r1->Ok_0, max_team_bet, later).0)
        }),
{
    let (s1, r1) = join_start_outcome(s, session_id, user, user_token, team, token_mint, now);
    if r1 is Ok {
        let ticket = r1->Ok_0;
        let n = s.team_size();
        let a = s.team_a.players;
        let b = s.team_b.players;
        assert(!s.team_a.has_player(user, n) && !s.team_b.has_player(user, n));
        assert(user != Pubkey::zero());
        lemma_position_of(s.team_of(team).players, n, Pubkey::zero());
        assert(0 <= ticket.slot < n);
        lemma_join_finish_seats(s1, user, ticket, max_team_bet, later);
        let s2 = join_finish_outcome(s1, user, ticket, max_team_bet, later).0;
        assert(s1.team_a == s.team_a && s1.team_b == s.team_b);
        assert forall|i: int, j: int|
            0 <= i < s2.team_size() && 0 <= j < s2.team_size() && #[trigger] s2.team_a.players[i] != Pubkey::zero()
                implies s2.team_a.players[i] != #[trigger] s2.team_b.players[j] by {
            if team == 0 {
                if s2.team_a.players != a && i == ticket.slot as int {
                    assert(s2.team_a.players[i] == user);
                    assert(b[j] != user);
                } else {
                    assert(s2.team_a.players[i] == a[i]);
                }
            } else {
                if s2.team_b.players != b && j == ticket.slot as int {
                    assert(s2.team_b.players[j] == user);
                    assert(a[i] != user);
                } else {
                    assert(s2.team_b.players[j] == b[j]);
                }
            }
        }
    }
}

/// A player's activity and earnings are read from that player's own slot:
/// for a player seated at slot `i` of `team` (the first slot holding the
/// key there, and, for team B, on no slot of team A), the activity is that
/// slot's kills plus spawns and the earnings are that activity times a
/// tenth of the bet.
pub proof fn law_earnings_read_own_slot(s: SessionView, team: u8, player: Pubkey, i: int)
    requires
        team <= 1,
        0 <= i < s.team_size(),
        player != Pubkey::zero(),
        s.team_of(team).players[i] == player,
        forall|j: int| 0 <= j < i ==> s.team_of(team).players[j] != player,
        team == 1 ==> forall|j: int| 0 <= j < s.team_size() ==> s.team_a.players[j] != player,
        s.team_of(team).player_kills[i] <= MAX_KILLS,
        s.team_of(team).player_spawns[i] <= MAX_SPAWNS,
        s.session_bet <= MAX_BET,
    ensures
        s.activity_of(player) == Ok::<u16, WagerError>(
            (s.team_of(team).player_kills[i] + s.team_of(team).player_spawns[i]) as u16,
        ),
        s.earnings_of(player) == Ok::<u64, WagerError>(
            (((s.team_of(team).player_kills[i] + s.team_of(team).player_spawns[i]) * s.session_bet) / 10) as u64,
        ),
{
    let n = s.team_size();
    lemma_position_of(s.team_a.players, n, player);
    lemma_position_of(s.team_b.players, n, player);
    if team == 0 {
        assert(position_of(s.team_a.players, n, player) == Some(i));
    } else {
        assert(position_of(s.team_a.players, n, player) is None);
        assert(position_of(s.team_b.players, n, player) == Some(i));
    }
    assert(s.stats_of(player) == Some((s.team_of(team).player_kills[i], s.team_of(team).player_spawns[i])));
    let a: int = s.team_of(team).player_kills[i] + s.team_of(team).player_spawns[i];
    let bet: int = s.session_bet as int;
    assert(a * 1_000_000 * bet <= 100 * 1_000_000 * 100_000_000) by (nonlinear_arith)
        requires
            0 <= a <= 100,
            0 <= bet <= 100_000_000,
    ;
    assert((a * 1_000_000 * bet) / 10_000_000 == (a * bet) / 10) by (nonlinear_arith)
        requires
            0 <= a,
            0 <= bet,
    ;
    assert((a * bet) / 10 <= 100 * 100_000_000) by (nonlinear_arith)
        requires
            0 <= a <= 100,
            0 <= bet <= 100_000_000,
    ;
}

/// A winner-takes-all plan pays the whole pot to the winning team: the
/// winners are the winning team's seated slots in order, each is paid
/// twice the bet, so together they receive twice the team size times the
/// bet (what both teams paid in), and the vault holds at least that.
pub proof fn law_winners_share_the_pot(s: SessionView, winning_team: u8, remaining: Seq<Pubkey>, vault_balance: u64)
    requires
        s.well_formed(),
    ensures
        winner_plan(s, winning_team, remaining, vault_balance) matches Ok((winners, amount)) ==> {
            &&& winning_team <= 1
            &&& winners.len() == s.team_size()
            &&& forall|k: int| 0 <= k < s.team_size() ==> #[trigger] winners[k] == s.team_of(winning_team).players[k]
            &&& amount == 2 * s.session_bet
            &&& amount * winners.len() == 2 * s.team_size() * s.session_bet
            &&& vault_balance >= amount * winners.len()
        },
{
    if winner_plan(s, winning_team, remaining, vault_balance) is Ok {
        let n = s.team_size();
        let bet = s.session_bet as int;
        assert(bet * 2 * n == 2 * n * bet) by (nonlinear_arith);
    }
}

/// A refund of an unlocked waiting or running game starts whenever the
/// request is in order: a valid identifier, one account pair per seated
/// player in roster order (the player, then a token account other than the
/// system program, no account twice), a bet within `MAX_REFUND_AMOUNT`, a
/// vault holding every bet plus the larger of 1000 and a hundredth of the
/// total, and room in the counters. The session then holds the refund lock
/// in `RefundInProgress`, its teams and bet untouched, so the plan names
/// every seated player with the bet as amount.
pub proof fn law_refund_of_open_game_starts(
    s: SessionView,
    session_id: Seq<char>,
    remaining: Seq<Pubkey>,
    vault_balance: u64,
    now: i64,
)
    requires
        s.status == GameStatus::WaitingForPlayers || s.status == GameStatus::InProgress,
        !s.locked,
        session_id_is_valid(session_id),
        s.nonce < u64::MAX,
        s.operation_count < u64::MAX,
        s.operations_in_window < MAX_OPERATIONS_PER_MINUTE,
        0 < s.session_bet <= MAX_REFUND_AMOUNT,
        ({
            let players = roster(s.team_a.players, s.team_b.players, s.team_size());
            &&& players.len() > 0
            &&& remaining.len() == 2 * players.len()
            &&& remaining.no_duplicates()
            &&& forall|k: int| 0 <= k < players.len() ==> remaining[2 * k] == #[trigger] players[k]
            &&& forall|k: int| 0 <= k < players.len() ==> #[trigger] remaining[2 * k + 1] != Pubkey::zero()
            &&& vault_balance >= s.session_bet * players.len() + 1000
            &&& vault_balance >= s.session_bet * players.len() + (s.session_bet * players.len()) / 100
        }),
    ensures
        ({
            let (t, r) = refund_start_outcome(s, session_id, remaining, vault_balance, now);
            &&& r == Ok::<(), WagerError>(())
            &&& t.status == GameStatus::RefundInProgress
            &&& t.locked
            &&& t.nonce == s.nonce + 1
            &&& t.team_a == s.team_a
            &&& t.team_b == s.team_b
            &&& t.game_mode == s.game_mode
            &&& t.session_bet == s.session_bet
        }),
{
    let players = roster(s.team_a.players, s.team_b.players, s.team_size());
    law_roster_players(s.team_a.players, s.team_b.players, s.team_size());
    let total = s.session_bet * players.len();
    assert(total <= u64::MAX);
    assert(forall|k: int| 0 <= k < players.len() ==> #[trigger] pair_ok(remaining, players, k));
    assert(!(exists|k: int| 0 <= k < players.len() && #[trigger] players[k] == Pubkey::zero()));
    assert(remaining_accounts_check(remaining, players) == Ok::<(), WagerError>(()));
}

/// A completed join seats the player fresh: the reserved slot of the
/// ticket's team holds the player with ten spawns and no kills, and the
/// team's bet total grew by the session bet.
pub proof fn law_join_seats_fresh_player(
    s: SessionView,
    user: Pubkey,
    ticket: JoinTicket,
    max_team_bet: u64,
    now: i64,
)
    requires
        s.well_formed(),
        ticket.slot < 5,
    ensures
        ({
            let (t, r) = join_finish_outcome(s, user, ticket, max_team_bet, now);
            let i = ticket.slot as int;
            r is Ok ==> {
                &&& t.team_of(ticket.team).players[i] == user
                &&& t.team_of(ticket.team).player_spawns[i] == 10
                &&& t.team_of(ticket.team).player_kills[i] == 0
                &&& t.team_of(ticket.team).total_bet == s.team_of(ticket.team).total_bet + s.session_bet
            }
        }),
{
    let tm = s.team_of(ticket.team);
    let i = ticket.slot as int;
    if tm.players[i] == Pubkey::zero() && tm.total_bet + s.session_bet <= u64::MAX && tm.total_bet
        + s.session_bet <= max_team_bet {
        let seated = TeamView {
            players: tm.players.update(i, user),
            player_spawns: tm.player_spawns.update(i, STARTING_SPAWNS),
            player_kills: tm.player_kills.update(i, 0),
            ..tm
        };
        let paid = s.with_team(ticket.team, TeamView { total_bet: (tm.total_bet + s.session_bet) as u64, ..seated });
        assert(paid.team_of(ticket.team).player_spawns[i] == STARTING_SPAWNS);
        lemma_bookkept_keeps_teams(paid, now);
        let k = paid.bookkept(now).0;
        lemma_swapped_keeps_teams(
            k,
            GameStatus::WaitingForPlayers,
            k.nonce,
            GameStatus::InProgress,
            Some("auto_start_game"@),
            now,
        );
    }
}

/// A kill report in order is recorded, whichever team scores: from the
/// session's signing authority, in an unexpired running game, killer and
/// victim distinct and seated (at slots `ki` and `vi`, the first slots
/// holding their keys) on opposite teams, the victim holding a spawn, the
/// killer below `MAX_KILLS`, and room in the counters. The killer then has
/// one kill more and the victim one spawn less.
pub proof fn law_valid_kill_report_recorded(
    s: SessionView,
    session_id: Seq<char>,
    killer_team: u8,
    killer: Pubkey,
    ki: int,
    victim_team: u8,
    victim: Pubkey,
    vi: int,
    now: i64,
)
    requires
        s.well_formed(),
        session_id_is_valid(session_id),
        now - s.created_at <= GAME_TIMEOUT_SECONDS,
        s.status == GameStatus::InProgress,
        (killer_team == 0 && victim_team == 1) || (killer_team == 1 && victim_team == 0),
        killer != victim,
        killer != Pubkey::zero(),
        victim != Pubkey::zero(),
        0 <= ki < s.team_size(),
        s.team_of(killer_team).players[ki] == killer,
        forall|j: int| 0 <= j < ki ==> s.team_of(killer_team).players[j] != killer,
        0 <= vi < s.team_size(),
        s.team_of(victim_team).players[vi] == victim,
        forall|j: int| 0 <= j < vi ==> s.team_of(victim_team).players[j] != victim,
        s.team_of(victim_team).player_spawns[vi] > 0,
        s.team_of(killer_team).player_kills[ki] < MAX_KILLS,
        s.nonce < u64::MAX,
        s.operation_count < u64::MAX,
        s.operations_in_window < MAX_OPERATIONS_PER_MINUTE,
    ensures
        ({
            let (t, r) = kill_report_outcome(
                s,
                session_id,
                s.authority,
                true,
                killer_team,
                killer,
                victim_team,
                victim,
                now,
            );
            &&& r == Ok::<(), WagerError>(())
            &&& t.team_of(killer_team).player_kills[ki] == s.team_of(killer_team).player_kills[ki] + 1
            &&& t.team_of(victim_team).player_spawns[vi] == s.team_of(victim_team).player_spawns[vi] - 1
            &&& t.team_of(killer_team).players == s.team_of(killer_team).players
            &&& t.team_of(victim_team).players == s.team_of(victim_team).players
        }),
{
    let n = s.team_size();
    lemma_position_of(s.team_of(killer_team).players, n, killer);
    lemma_position_of(s.team_of(victim_team).players, n, victim);
    assert(s.slot_of(killer_team, killer) == Ok::<int, WagerError>(ki));
    assert(s.slot_of(victim_team, victim) == Ok::<int, WagerError>(vi));
    let kt = s.team_of(killer_team);
    let vt = s.team_of(victim_team);
    let u = s.with_team(
        killer_team,
        TeamView { player_kills: kt.player_kills.update(ki, (kt.player_kills[ki] + 1) as u8), ..kt },
    ).with_team(
        victim_team,
        TeamView { player_spawns: vt.player_spawns.update(vi, (vt.player_spawns[vi] - 1) as u8), ..vt },
    );
    lemma_bookkept_keeps_teams(u, now);
}

/// The first half of a join reserves the first empty slot of the chosen
/// team for a player seated on neither team, asks for exactly the session
/// bet from that player, and leaves the teams as they were.
pub proof fn law_join_reserves_first_empty_slot(
    s: SessionView,
    session_id: Seq<char>,
    user: Pubkey,
    user_token: TokenAccountState,
    team: u8,
    token_mint: Pubkey,
    now: i64,
)
    ensures
        ({
            let (t, r) = join_start_outcome(s, session_id, user, user_token, team, token_mint, now);
            r matches Ok(ticket) ==> {
                &&& ticket.team == team
                &&& team <= 1
                &&& 0 <= ticket.slot < s.team_size()
                &&& s.team_of(team).players[ticket.slot as int] == Pubkey::zero()
                &&& forall|j: int| 0 <= j < ticket.slot ==> s.team_of(team).players[j] != Pubkey::zero()
                &&& forall|j: int| 0 <= j < s.team_size() ==> s.team_a.players[j] != user && s.team_b.players[j] != user
                &&& user != Pubkey::zero()
                &&& ticket.transfer.counterparty == user
                &&& ticket.transfer.amount == s.session_bet
                &&& user_token.amount >= s.session_bet
                &&& t.team_a == s.team_a
                &&& t.team_b == s.team_b
                &&& t.status == GameStatus::WaitingForPlayers
            }
        }),
{
    let (t, r) = join_start_outcome(s, session_id, user, user_token, team, token_mint, now);
    if r is Ok {
        let n = s.team_size();
        lemma_position_of(s.team_of(team).players, n, Pubkey::zero());
        assert forall|j: int| 0 <= j < n implies s.team_a.players[j] != user && s.team_b.players[j] != user by {
            if s.team_a.players[j] == user {
                assert(s.team_a.has_player(user, n));
            }
            if s.team_b.players[j] == user {
                assert(s.team_b.has_player(user, n));
            }
        }
    }
}

/// An emergency pause of an unexpired, unfinished and unlocked game with
/// room in its counters succeeds: the game is paused and the lock free.
pub proof fn law_pause_of_live_game(s: SessionView, now: i64)
    requires
        now - s.created_at <= GAME_TIMEOUT_SECONDS,
        !s.status.is_terminal(),
        !s.locked,
        s.nonce < u64::MAX,
        s.operation_count < u64::MAX,
        s.operations_in_window < MAX_OPERATIONS_PER_MINUTE,
    ensures
        ({
            let (t, r) = pause_outcome(s, now);
            &&& r == Ok::<(), WagerError>(())
            &&& t.status == GameStatus::EmergencyPaused
            &&& t.nonce == s.nonce + 1
            &&& !t.locked
            &&& t.team_a == s.team_a
            &&& t.team_b == s.team_b
        }),
{
}

} // verus!
