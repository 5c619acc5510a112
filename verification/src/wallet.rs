//! Wallet addresses. An address travels through this library as the text the
//! event carried; the one thing the logic needs to know of it is whether the
//! ledger's key type accepts it, which only the ledger's own parser can say.

use vstd::prelude::*;
use core::str::FromStr;

verus! {

/// Whether `s` is a well-formed wallet address: the text of a base58-encoded
/// 32-byte key. The predicate is given meaning by `check_wallet` alone.
pub uninterp spec fn wallet_ok(s: Seq<char>) -> bool;

/// Relies on `solana_program::pubkey::Pubkey::from_str`: whether the text
/// decodes to a 32-byte key depends on the text alone, so parsing it twice
/// gives the same verdict.
#[verifier::external_body]
pub fn check_wallet(s: &str) -> (r: bool)
    ensures
        r == wallet_ok(s@),
{
    solana_program::pubkey::Pubkey::from_str(s).is_ok()
}

} // verus!
