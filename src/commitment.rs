//! The commitment store: one record per caller, kept at a slot derived from the
//! caller's identity.
use crate::error::CustomError;
use crate::key::Key;
use vstd::prelude::*;

verus! {

/// A caller's commitment: the hash of the swap it means to reveal, and whether
/// that reveal has already been forwarded.
#[derive(Clone, Copy, Debug)]
pub struct SwapCommit {
    pub hash: Key,
    pub used: bool,
}

/// The record that a commit of `hash` leaves behind.
pub open spec fn fresh_commit(hash: Key) -> SwapCommit {
    SwapCommit { hash, used: false }
}

/// The accounts of a commit request.
pub struct CommitSwap {
    /// The caller, who signs and pays for the record's storage.
    pub sender: Key,
    /// The caller's record, `None` before its first commit.
    pub commit_account: Option<SwapCommit>,
}

/// Stores `swap_hash` as the caller's commitment, creating the record if it is
/// absent and re-arming it otherwise.
pub fn commitswap(ctx: &mut CommitSwap, swap_hash: Key) -> (r: Result<(), CustomError>)
    ensures
        r is Ok,
        final(ctx).commit_account == Some(fresh_commit(swap_hash)),
        final(ctx).sender == old(ctx).sender,
{
    ctx.commit_account = Some(SwapCommit { hash: swap_hash, used: false });
    Ok(())
}

} // verus!
