//! Feeding session data into the standard library's `DefaultHasher`.
//!
//! vstd models a `DefaultHasher` by the sequence of byte strings written to
//! it, and its digest as a fixed function of that sequence. Which byte
//! strings `Hash::hash` writes for a value is an implementation detail of
//! the standard library (a `str` adds a terminator, an array a length
//! prefix in the target's `usize` width, an `i64` its bytes in the target's
//! byte order), so the writes are named rather than spelled out: the names
//! say that the same value always appends the same writes on the target the
//! library is built for.
use vstd::prelude::*;
use std::collections::hash_map::DefaultHasher;
use crate::pubkey::Pubkey;

verus! {

/// The writes `<str as Hash>::hash` appends to a hasher for `text`.
pub uninterp spec fn str_hash_writes(text: Seq<char>) -> Seq<Seq<u8>>;

/// The writes `<[u8; 32] as Hash>::hash` appends for the 32 big-endian
/// bytes of `key`.
pub uninterp spec fn key_hash_writes(key: Pubkey) -> Seq<Seq<u8>>;

/// The writes `<i64 as Hash>::hash` appends for `t`.
pub uninterp spec fn i64_hash_writes(t: i64) -> Seq<Seq<u8>>;

/// Calls `<str as Hash>::hash(text, hasher)`: the hasher's writes grow by
/// those named for `text`.
#[verifier::external_body]
pub(crate) fn hash_text(hasher: &mut DefaultHasher, text: &str)
    ensures
        final(hasher)@ == old(hasher)@ + str_hash_writes(text@),
{
    std::hash::Hash::hash(text, hasher);
}

/// Calls `<[u8; 32] as Hash>::hash` on the 32 big-endian bytes of `key`
/// (the form `Pubkey::to_bytes` gives): the hasher's writes grow by those
/// named for `key`.
#[verifier::external_body]
pub(crate) fn hash_key(hasher: &mut DefaultHasher, key: Pubkey)
    ensures
        final(hasher)@ == old(hasher)@ + key_hash_writes(key),
{
    let mut bytes = [0u8; 32];
    bytes[..16].copy_from_slice(&key.high.to_be_bytes());
    bytes[16..].copy_from_slice(&key.low.to_be_bytes());
    std::hash::Hash::hash(&bytes, hasher);
}

/// Calls `<i64 as Hash>::hash(&timestamp, hasher)`: the hasher's writes grow
/// by those named for `timestamp`.
#[verifier::external_body]
pub(crate) fn hash_timestamp(hasher: &mut DefaultHasher, timestamp: i64)
    ensures
        final(hasher)@ == old(hasher)@ + i64_hash_writes(timestamp),
{
    std::hash::Hash::hash(&timestamp, hasher);
}

} // verus!
