//! Input validation and checked arithmetic shared by the instructions.
use vstd::prelude::*;
use vstd::utf8::{encode_utf8, is_ascii_chars, is_ascii_chars_encode_utf8};
use std::collections::hash_map::DefaultHasher;
use std::hash::Hasher;
use crate::errors::WagerError;
use crate::pubkey::Pubkey;
use crate::text::{chars_of, contains_str, contains_text, count_occurrences, equals_str, fold_all, fold_text, id_char, is_control, is_digit, is_id_char, is_letter, occurrences, starts_with_str, starts_with_text};
use crate::hashing::{hash_key, hash_text, hash_timestamp, i64_hash_writes, key_hash_writes, str_hash_writes};
use vstd::std_specs::hash::DefaultHasherAdditionalSpecFns;
use crate::solana::system_program_id;

verus! {

/// Largest share of an identifier, in tenths, that one character may take.
pub open spec fn repeat_limit(len: int) -> int {
    (len * 4) / 10
}

/// The rules a session identifier must follow: 12 to 32 bytes of ASCII
/// letters, digits, `_` and `-`, with at least one letter and one digit, no
/// weak prefix, no reserved name, no doubled separator, no trailing
/// separator, and no character making up more than 40% of it.
pub open spec fn session_id_is_valid(id: Seq<char>) -> bool {
    let folded = fold_text(id);
    &&& 12 <= encode_utf8(id).len() <= 32
    &&& forall|i: int| 0 <= i < id.len() ==> is_id_char(#[trigger] id[i])
    &&& exists|i: int| 0 <= i < id.len() && is_letter(#[trigger] id[i])
    &&& exists|i: int| 0 <= i < id.len() && is_digit(#[trigger] id[i])
    &&& forall|i: int| 0 <= i < id.len() ==> !is_control(#[trigger] id[i])
    &&& !starts_with_text(folded, "000"@)
    &&& !starts_with_text(folded, "111"@)
    &&& !starts_with_text(folded, "aaa"@)
    &&& folded != "default"@
    &&& folded != "admin"@
    &&& folded != "system"@
    &&& folded != "test"@
    &&& folded != "game"@
    &&& !contains_text(folded, ".."@)
    &&& !contains_text(folded, "__"@)
    &&& !contains_text(folded, "--"@)
    &&& id.len() > 0 ==> id.last() != '_' && id.last() != '-'
    &&& forall|i: int|
        0 <= i < id.len() ==> occurrences(id, #[trigger] id[i]) <= repeat_limit(encode_utf8(id).len() as int)
}

pub(crate) proof fn lemma_id_chars_are_ascii(id: Seq<char>)
    requires
        forall|i: int| 0 <= i < id.len() ==> is_id_char(#[trigger] id[i]),
    ensures
        is_ascii_chars(id),
        encode_utf8(id).len() == id.len(),
        forall|i: int| 0 <= i < id.len() ==> !is_control(#[trigger] id[i]),
{
    assert forall|i: int| 0 <= i < id.len() implies '\0' <= #[trigger] id[i] <= '\u{7f}' by {
        assert(is_id_char(id[i]));
    }
    is_ascii_chars_encode_utf8(id);
    assert forall|i: int| 0 <= i < id.len() implies !is_control(#[trigger] id[i]) by {
        assert(is_id_char(id[i]));
    }
}

/// Checks a session identifier against `session_id_is_valid`.
pub fn validate_session_id(session_id: &str) -> (r: Result<(), WagerError>)
    ensures
        r is Ok <==> session_id_is_valid(session_id@),
        r is Err ==> r == Err::<(), WagerError>(WagerError::InvalidSessionId),
{
    let byte_len = session_id.len();
    if !(byte_len >= 12 && byte_len <= 32) {
        return Err(WagerError::InvalidSessionId);
    }
    let id = chars_of(session_id);
    let n = id.len();
    for i in 0..n
        invariant
            n == id@.len(),
            id@ == session_id@,
            forall|k: int| 0 <= k < i ==> is_id_char(#[trigger] id@[k]),
    {
        if !id_char(id[i]) {
            assert(!is_id_char(id@[i as int]));
            return Err(WagerError::InvalidSessionId);
        }
    }
    proof {
        lemma_id_chars_are_ascii(id@);
    }
    let mut has_letter = false;
    let mut has_number = false;
    for i in 0..n
        invariant
            n == id@.len(),
            id@ == session_id@,
            has_letter <==> exists|k: int| 0 <= k < i && is_letter(#[trigger] id@[k]),
            has_number <==> exists|k: int| 0 <= k < i && is_digit(#[trigger] id@[k]),
    {
        let c = id[i];
        if ('a' <= c && c <= 'z') || ('A' <= c && c <= 'Z') {
            has_letter = true;
        }
        if '0' <= c && c <= '9' {
            has_number = true;
        }
    }
    if !(has_letter && has_number) {
        return Err(WagerError::InvalidSessionId);
    }
    let lower_id = fold_all(&id);
    if starts_with_str(&lower_id, "000") || starts_with_str(&lower_id, "111")
        || starts_with_str(&lower_id, "aaa") || equals_str(&lower_id, "default")
        || equals_str(&lower_id, "admin") || equals_str(&lower_id, "system")
        || equals_str(&lower_id, "test") || equals_str(&lower_id, "game")
        || contains_str(&lower_id, "..") || contains_str(&lower_id, "__")
        || contains_str(&lower_id, "--") {
        return Err(WagerError::InvalidSessionId);
    }
    let last = id[n - 1];
    if last == '_' || last == '-' {
        return Err(WagerError::InvalidSessionId);
    }
    let max_allowed_repeats = (byte_len * 4) / 10;
    for i in 0..n
        invariant
            n == id@.len(),
            id@ == session_id@,
            byte_len == encode_utf8(id@).len(),
            max_allowed_repeats == repeat_limit(byte_len as int),
            forall|k: int|
                0 <= k < i ==> occurrences(id@, #[trigger] id@[k]) <= repeat_limit(byte_len as int),
    {
        let count = count_occurrences(&id, id[i]);
        if !(count <= max_allowed_repeats) {
            assert(occurrences(id@, id@[i as int]) > repeat_limit(byte_len as int));
            return Err(WagerError::InvalidSessionId);
        }
    }
    Ok(())
}

/// The `i`-th pair of passed accounts holds the `i`-th expected player
/// followed by an account other than the system program.
pub open spec fn pair_ok(remaining: Seq<Pubkey>, expected: Seq<Pubkey>, i: int) -> bool {
    remaining[2 * i] == expected[i] && remaining[2 * i + 1] != Pubkey::zero()
}

/// The outcome of checking the accounts passed alongside an instruction:
/// a player account followed by its token account for every expected
/// player, in order, with no account passed twice, no empty player and no
/// reference to the system program.
pub open spec fn remaining_accounts_check(
    remaining: Seq<Pubkey>,
    expected: Seq<Pubkey>,
) -> Result<(), WagerError> {
    if remaining.len() != 2 * expected.len() || expected.len() == 0 {
        Err(WagerError::InvalidRemainingAccounts)
    } else if !remaining.no_duplicates() {
        Err(WagerError::DuplicatePlayer)
    } else if exists|i: int| 0 <= i < expected.len() && #[trigger] expected[i] == Pubkey::zero() {
        Err(WagerError::InvalidPlayer)
    } else if exists|i: int| 0 <= i < expected.len() && !#[trigger] pair_ok(remaining, expected, i) {
        Err(WagerError::InvalidPlayer)
    } else {
        Ok(())
    }
}

/// Checks that `remaining_accounts` (the keys of the accounts passed after
/// the named ones) pair each of `expected_players` with a token account.
pub fn validate_remaining_accounts_against_players(
    remaining_accounts: &[Pubkey],
    expected_players: &[Pubkey],
) -> (r: Result<(), WagerError>)
    requires
        expected_players@.len() <= usize::MAX / 2,
    ensures
        r == remaining_accounts_check(remaining_accounts@, expected_players@),
{
    let n = expected_players.len();
    let m = remaining_accounts.len();
    if !(m == n * 2) {
        return Err(WagerError::InvalidRemainingAccounts);
    }
    if n == 0 {
        return Err(WagerError::InvalidRemainingAccounts);
    }
    for i in 0..m
        invariant
            m == remaining_accounts@.len(),
            n == expected_players@.len(),
            m == 2 * n,
            n > 0,
            forall|a: int, b: int|
                0 <= a < m && 0 <= b < m && a != b && a < i ==> remaining_accounts@[a]
                    != remaining_accounts@[b],
    {
        for j in 0..m
            invariant
                m == remaining_accounts@.len(),
                n == expected_players@.len(),
                m == 2 * n,
                n > 0,
                i < m,
                forall|a: int, b: int|
                    0 <= a < m && 0 <= b < m && a != b && a < i ==> remaining_accounts@[a]
                        != remaining_accounts@[b],
                forall|b: int| 0 <= b < j && b != i ==> remaining_accounts@[i as int] != remaining_accounts@[b],
        {
            if j != i && remaining_accounts[i] == remaining_accounts[j] {
                assert(!remaining_accounts@.no_duplicates());
                return Err(WagerError::DuplicatePlayer);
            }
        }
    }
    assert(remaining_accounts@.no_duplicates());
    for i in 0..n
        invariant
            n == expected_players@.len(),
            m == remaining_accounts@.len(),
            m == 2 * n,
            n > 0,
            remaining_accounts@.no_duplicates(),
            forall|k: int| 0 <= k < i ==> expected_players@[k] != Pubkey::zero(),
    {
        if !(expected_players[i] != Pubkey::default()) {
            assert(expected_players@[i as int] == Pubkey::zero());
            return Err(WagerError::InvalidPlayer);
        }
    }
    let system_id = system_program_id();
    let mut i: usize = 0;
    while i < n
        invariant
            n == expected_players@.len(),
            m == remaining_accounts@.len(),
            m == 2 * n,
            i <= n,
            n > 0,
            system_id == Pubkey::zero(),
            remaining_accounts@.no_duplicates(),
            forall|k: int| 0 <= k < n ==> expected_players@[k] != Pubkey::zero(),
            forall|k: int| 0 <= k < i ==> #[trigger] pair_ok(remaining_accounts@, expected_players@, k),
        decreases n - i,
    {
        let player_account_idx = i * 2;
        let token_account_idx = i * 2 + 1;
        if !(player_account_idx < m && token_account_idx < m) {
            return Err(WagerError::InvalidRemainingAccounts);
        }
        let player_account = remaining_accounts[player_account_idx];
        let token_account = remaining_accounts[token_account_idx];
        if !(player_account == expected_players[i]) {
            assert(!pair_ok(remaining_accounts@, expected_players@, i as int));
            return Err(WagerError::InvalidPlayer);
        }
        if token_account == player_account {
            return Err(WagerError::InvalidPlayerTokenAccount);
        }
        if player_account == system_id || token_account == system_id {
            assert(!pair_ok(remaining_accounts@, expected_players@, i as int));
            return Err(WagerError::InvalidPlayer);
        }
        assert(pair_ok(remaining_accounts@, expected_players@, i as int));
        i = i + 1;
    }
    Ok(())
}

/// `base * multiplier / divisor` when all three are positive and the
/// product fits in 64 bits; `ArithmeticError` otherwise.
pub fn safe_multiply_and_divide(base: u64, multiplier: u64, divisor: u64) -> (r: Result<u64, WagerError>)
    ensures
        divisor > 0 && base > 0 && multiplier > 0 && base * multiplier <= u64::MAX
            ==> r == Ok::<u64, WagerError>(((base * multiplier) / (divisor as int)) as u64),
        !(divisor > 0 && base > 0 && multiplier > 0 && base * multiplier <= u64::MAX)
            ==> r == Err::<u64, WagerError>(WagerError::ArithmeticError),
{
    if !(divisor > 0) {
        return Err(WagerError::ArithmeticError);
    }
    if !(base > 0) {
        return Err(WagerError::ArithmeticError);
    }
    if !(multiplier > 0) {
        return Err(WagerError::ArithmeticError);
    }
    let limit = u64::MAX / multiplier;
    proof {
        assert(base <= limit <==> base * multiplier <= u64::MAX) by (nonlinear_arith)
            requires
                multiplier > 0,
                limit == u64::MAX / multiplier,
        {
            if base <= limit {
                assert(base * multiplier <= limit * multiplier);
            } else {
                assert(base >= limit + 1);
                assert(base * multiplier >= (limit + 1) * multiplier);
            }
        }
    }
    if !(base <= limit) {
        return Err(WagerError::ArithmeticError);
    }
    let product = match base.checked_mul(multiplier) {
        Some(p) => p,
        None => {
            return Err(WagerError::ArithmeticError);
        },
    };
    let result = match product.checked_div(divisor) {
        Some(q) => q,
        None => {
            return Err(WagerError::ArithmeticError);
        },
    };
    if base >= divisor && multiplier >= divisor {
        proof {
            assert(product >= divisor) by (nonlinear_arith)
                requires
                    product == base * multiplier,
                    base >= divisor,
                    multiplier >= 1,
            ;
            assert(result > 0) by (nonlinear_arith)
                requires
                    product >= divisor,
                    divisor > 0,
                    result == product / divisor,
            ;
        }
        if !(result > 0) {
            return Err(WagerError::ArithmeticError);
        }
    }
    Ok(result)
}

/// Sum of two amounts, or `ArithmeticError` when it does not fit in 64 bits.
pub fn safe_add_u64(a: u64, b: u64) -> (r: Result<u64, WagerError>)
    ensures
        a + b <= u64::MAX ==> r == Ok::<u64, WagerError>((a + b) as u64),
        a + b > u64::MAX ==> r == Err::<u64, WagerError>(WagerError::ArithmeticError),
{
    match a.checked_add(b) {
        Some(v) => Ok(v),
        None => Err(WagerError::ArithmeticError),
    }
}

/// Difference of two amounts, or `ArithmeticError` when `b` exceeds `a`.
pub fn safe_sub_u64(a: u64, b: u64) -> (r: Result<u64, WagerError>)
    ensures
        b <= a ==> r == Ok::<u64, WagerError>((a - b) as u64),
        b > a ==> r == Err::<u64, WagerError>(WagerError::ArithmeticError),
{
    match a.checked_sub(b) {
        Some(v) => Ok(v),
        None => Err(WagerError::ArithmeticError),
    }
}

/// Product of two amounts, or `ArithmeticError` when it does not fit in 64 bits.
pub fn safe_mul_u64(a: u64, b: u64) -> (r: Result<u64, WagerError>)
    ensures
        a * b <= u64::MAX ==> r == Ok::<u64, WagerError>((a * b) as u64),
        a * b > u64::MAX ==> r == Err::<u64, WagerError>(WagerError::ArithmeticError),
{
    match a.checked_mul(b) {
        Some(v) => Ok(v),
        None => Err(WagerError::ArithmeticError),
    }
}

/// The larger of two amounts.
pub open spec fn larger(a: u64, b: u64) -> u64 {
    if a >= b { a } else { b }
}

/// `a + b`, capped at `u64::MAX`.
pub open spec fn capped_sum(a: u64, b: u64) -> u64 {
    if a + b <= u64::MAX { (a + b) as u64 } else { u64::MAX }
}

/// The buffer a vault must hold beyond what it pays out: 1000 units or a
/// thousandth of the amount, whichever is larger.
pub open spec fn vault_margin(required: u64) -> u64 {
    larger(1000, required / 1000)
}

/// Checks that a vault holds `required_amount` plus its safety margin.
pub fn validate_vault_balance(vault_balance: u64, required_amount: u64) -> (r: Result<(), WagerError>)
    ensures
        r is Ok <==> vault_balance >= capped_sum(required_amount, vault_margin(required_amount)),
        r is Err ==> r == Err::<(), WagerError>(WagerError::InsufficientVaultFunds),
{
    if !(vault_balance >= required_amount) {
        return Err(WagerError::InsufficientVaultFunds);
    }
    let min_safety_margin = 1000u64;
    let percentage_margin = required_amount / 1000;
    let safety_margin = if min_safety_margin >= percentage_margin {
        min_safety_margin
    } else {
        percentage_margin
    };
    if !(vault_balance >= required_amount.saturating_add(safety_margin)) {
        return Err(WagerError::InsufficientVaultFunds);
    }
    Ok(())
}

/// Smallest bet the bet check accepts.
pub const MIN_BET_AMOUNT: u64 = 1000;
/// Largest bet the bet check accepts.
pub const MAX_BET_AMOUNT: u64 = 1_000_000_000_000;

/// Checks that a bet lies between `MIN_BET_AMOUNT` and `MAX_BET_AMOUNT`.
pub fn validate_bet_amount(bet_amount: u64) -> (r: Result<(), WagerError>)
    ensures
        r is Ok <==> MIN_BET_AMOUNT <= bet_amount <= MAX_BET_AMOUNT,
        r is Err ==> r == Err::<(), WagerError>(WagerError::InvalidBetAmount),
{
    if !(bet_amount >= MIN_BET_AMOUNT) {
        return Err(WagerError::InvalidBetAmount);
    }
    if !(bet_amount <= MAX_BET_AMOUNT) {
        return Err(WagerError::InvalidBetAmount);
    }
    Ok(())
}

/// Cap on spawns in the spawn-purchase check.
pub const SPAWN_CAP: u8 = 100;

/// The verdict on buying `increment` spawns on top of `current_spawns`.
pub open spec fn spawn_count_check(current_spawns: u8, increment: u8) -> Result<(), WagerError> {
    let room: int = if increment > SPAWN_CAP { 0 } else { SPAWN_CAP - increment };
    if current_spawns > room {
        Err(WagerError::SpawnLimitExceeded)
    } else if !(1 <= increment <= 50) {
        Err(WagerError::InvalidSpawns)
    } else if current_spawns + increment > u8::MAX {
        Err(WagerError::ArithmeticError)
    } else {
        Ok(())
    }
}

/// Checks that buying `increment` spawns keeps `current_spawns` within
/// `SPAWN_CAP` and that the purchase size lies between 1 and 50.
pub fn validate_spawn_count(current_spawns: u8, increment: u8) -> (r: Result<(), WagerError>)
    ensures
        r == spawn_count_check(current_spawns, increment),
{
    if !(current_spawns <= SPAWN_CAP.saturating_sub(increment)) {
        return Err(WagerError::SpawnLimitExceeded);
    }
    if !(increment > 0 && increment <= 50) {
        return Err(WagerError::InvalidSpawns);
    }
    if current_spawns.checked_add(increment).is_none() {
        return Err(WagerError::ArithmeticError);
    }
    Ok(())
}

/// Cap on kills in the kill-count check.
pub const KILL_CAP: u8 = 200;

/// Checks that one more kill can be recorded.
pub fn validate_kill_count(current_kills: u8) -> (r: Result<(), WagerError>)
    ensures
        current_kills < KILL_CAP ==> r == Ok::<(), WagerError>(()),
        current_kills >= KILL_CAP ==> r == Err::<(), WagerError>(WagerError::ArithmeticError),
{
    if !(current_kills < KILL_CAP) {
        return Err(WagerError::ArithmeticError);
    }
    Ok(())
}

/// The 32 bytes a session hash is made of, given the 64-bit digest: the
/// digest in little-endian order, then for each further byte `i` the low
/// byte of the digest shifted right by `8 * i` (modulo 64), xor the
/// timestamp.
pub open spec fn session_hash_bytes(digest: u64, timestamp: i64) -> Seq<u8> {
    Seq::new(
        32,
        |i: int|
            if i < 8 {
                (digest >> ((i * 8) as u32)) as u8
            } else {
                (digest.wrapping_shr((i * 8) as u32) ^ (timestamp as u64)) as u8
            },
    )
}

/// Spreads a 64-bit digest over a 32-byte session hash.
pub fn expand_session_digest(hash_value: u64, timestamp: i64) -> (r: [u8; 32])
    ensures
        r@ == session_hash_bytes(hash_value, timestamp),
{
    let mut result = [0u8; 32];
    for i in 0..8
        invariant
            forall|k: int| 0 <= k < i ==> result@[k] == session_hash_bytes(hash_value, timestamp)[k],
    {
        let shift: u32 = (i as u32) * 8;
        result[i] = (hash_value >> shift) as u8;
    }
    for i in 8..32
        invariant
            8 <= i <= 32,
            forall|k: int| 0 <= k < i ==> result@[k] == session_hash_bytes(hash_value, timestamp)[k],
    {
        let shift: u32 = (i as u32) * 8;
        result[i] = (hash_value.wrapping_shr(shift) ^ timestamp as u64) as u8;
    }
    assert(result@ =~= session_hash_bytes(hash_value, timestamp));
    result
}

/// The 64-bit digest of a session: `DefaultHasher`'s digest after the
/// identifier, the authority, the creation time and the `WAGER_SESSION_V1`
/// tag were hashed into it, in that order.
pub open spec fn session_digest(session_id: Seq<char>, authority: Pubkey, timestamp: i64) -> u64 {
    DefaultHasher::spec_finish(
        str_hash_writes(session_id) + key_hash_writes(authority) + i64_hash_writes(timestamp)
            + str_hash_writes("WAGER_SESSION_V1"@),
    )
}

/// The 32-byte session hash of an identifier, an authority and a creation
/// time.
pub open spec fn session_hash(session_id: Seq<char>, authority: Pubkey, timestamp: i64) -> Seq<u8> {
    session_hash_bytes(session_digest(session_id, authority, timestamp), timestamp)
}

/// A 32-byte hash binding a session identifier, its authority and its
/// creation time: the 64-bit `DefaultHasher` digest of the three (and a
/// version tag), spread over 32 bytes.
pub fn generate_session_hash(session_id: &str, authority: Pubkey, timestamp: i64) -> (r: [u8; 32])
    ensures
        r@ == session_hash(session_id@, authority, timestamp),
{
    let mut hasher = DefaultHasher::new();
    hash_text(&mut hasher, session_id);
    hash_key(&mut hasher, authority);
    hash_timestamp(&mut hasher, timestamp);
    let tag = "WAGER_SESSION_V1";
    hash_text(&mut hasher, tag);
    let hash_value = hasher.finish();
    assert(hasher@ =~= str_hash_writes(session_id@) + key_hash_writes(authority) + i64_hash_writes(timestamp)
        + str_hash_writes(tag@));
    expand_session_digest(hash_value, timestamp)
}

} // verus!
