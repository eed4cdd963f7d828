# wager_program

A verified core for a team-based wager game on Solana. Players join one of
two teams by paying a bet into a vault; during play the game server reports
kills, players may buy extra spawns, and at the end the pot is paid out
(by activity, or to the winning team) or refunded.

- `src/` is the library, verified with Verus: the session life cycle guarded
  by a nonce and an operation lock, rate limiting, teams and scoring, input
  validation, and for each instruction a handler that makes every decision
  over plain values. `src/laws.rs` holds the properties that span
  operations.
- `app/` is the Anchor program around it: account declarations, the clock,
  and the token transfers.
- `tests/` exercises the library.
