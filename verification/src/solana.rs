//! What the library takes from the Anchor framework: the system program's
//! address and the textual (base58) form of an address.
use vstd::prelude::*;
use crate::pubkey::Pubkey;

verus! {

/// A character of the base58 (Bitcoin) alphabet: digits 1-9 and the ASCII
/// letters without `0`, `O`, `I` and `l`.
pub open spec fn is_base58_char(c: char) -> bool {
    ||| ('1' <= c && c <= '9')
    ||| ('A' <= c && c <= 'H')
    ||| ('J' <= c && c <= 'N')
    ||| ('P' <= c && c <= 'Z')
    ||| ('a' <= c && c <= 'k')
    ||| ('m' <= c && c <= 'z')
}

/// The text `Pubkey`'s `Display` writes for a key: its 32 bytes in base58.
pub uninterp spec fn base58_text(key: Pubkey) -> Seq<char>;

/// `anchor_lang::system_program::ID`. Its base58 form is thirty-two `1`s,
/// which decodes to thirty-two zero bytes: the contract states that it is
/// the all-zero key.
#[verifier::external_body]
pub(crate) fn system_program_id() -> (k: Pubkey)
    ensures
        k == Pubkey::zero(),
{
    let bytes = anchor_lang::system_program::ID.to_bytes();
    let mut high = [0u8; 16];
    let mut low = [0u8; 16];
    high.copy_from_slice(&bytes[..16]);
    low.copy_from_slice(&bytes[16..]);
    Pubkey { high: u128::from_be_bytes(high), low: u128::from_be_bytes(low) }
}

/// `key.to_string()` on Anchor's `Pubkey`, which encodes the 32 bytes with
/// `bs58` in the Bitcoin alphabet. The contract names the text and states
/// that every character belongs to that alphabet.
#[verifier::external_body]
pub(crate) fn base58_of(key: Pubkey) -> (s: String)
    ensures
        s@ == base58_text(key),
        forall|i: int| 0 <= i < s@.len() ==> is_base58_char(#[trigger] s@[i]),
{
    let mut bytes = [0u8; 32];
    bytes[..16].copy_from_slice(&key.high.to_be_bytes());
    bytes[16..].copy_from_slice(&key.low.to_be_bytes());
    anchor_lang::prelude::Pubkey::new_from_array(bytes).to_string()
}

} // verus!
