//! The one routing program that swaps may be forwarded to.
use crate::key::Key;
use anchor_lang::prelude::Pubkey;
use std::str::FromStr;
use vstd::prelude::*;

verus! {

/// Base58 address of the trusted routing program.
pub const JUPITER_PROGRAM_ADDRESS: &'static str = "JUP6LkbZbjS1jKKwapdHNy74zcZ3tLUZoi5QNyVTaV4";

/// The key bytes that a base58 address text parses to, or `None` where the text
/// is not the address of a 32-byte key.
pub uninterp spec fn pubkey_from_base58(s: Seq<char>) -> Option<Key>;

/// Relies on `Pubkey::from_str` (solana-program, re-exported by anchor-lang):
/// it decodes base58 text into the 32 bytes of a key, and fails on text that is
/// not base58 or does not decode to exactly 32 bytes. The result depends on the
/// text alone.
#[verifier::external_body]
fn parse_pubkey(s: &str) -> (r: Option<Key>)
    ensures
        r == pubkey_from_base58(s@),
{
    Pubkey::from_str(s).ok().map(|k| k.to_bytes())
}

/// The identity of the trusted routing program, if its address parses.
pub open spec fn router_identity() -> Option<Key> {
    pubkey_from_base58(JUPITER_PROGRAM_ADDRESS@)
}

/// The key of the trusted routing program, parsed from its base58 address.
pub fn jupiter_program_id() -> (r: Option<Key>)
    ensures
        r == router_identity(),
{
    parse_pubkey(JUPITER_PROGRAM_ADDRESS)
}

/// Whether `target` is the trusted routing program.
pub open spec fn is_trusted_router(target: Key) -> bool {
    router_identity() == Some(target)
}

/// Tells whether `target` is the trusted routing program.
pub fn is_jupiter_program(target: &Key) -> (r: bool)
    ensures
        r == is_trusted_router(*target),
{
    match jupiter_program_id() {
        Some(id) => crate::key::keys_equal(&id, target),
        None => false,
    }
}

} // verus!
