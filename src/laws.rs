//! What holds of commit and swap requests taken together.
use crate::commitment::{fresh_commit, SwapCommit};
use crate::error::CustomError;
use crate::executor::{next_commit, next_stage, request_outcome, reveal_error, SwapStage};
use crate::key::Key;
use crate::router::is_trusted_router;
use vstd::prelude::*;

verus! {

/// A reveal whose hash differs from the committed one fails with
/// `InvalidReveal` and leaves the record as it was, whatever the host would
/// have reported.
pub proof fn lemma_mismatched_reveal_rejected(
    committed: Key,
    revealed: Key,
    target: Key,
    fee_ok: bool,
    forward_ok: bool,
)
    requires
        committed != revealed,
        is_trusted_router(target),
    ensures
        request_outcome(Some(fresh_commit(committed)), target, revealed, fee_ok, forward_ok) == (
        Some(fresh_commit(committed)), Err::<(), CustomError>(CustomError::InvalidReveal)),
{
}

/// After a commit, the matching reveal succeeds when the fee transfer and the
/// forwarded call do, and marks the record used; a second reveal of the same
/// hash then fails with `AlreadyConsumed` and changes nothing.
pub proof fn lemma_reveal_succeeds_once(
    hash: Key,
    target: Key,
    fee_ok: bool,
    forward_ok: bool,
)
    requires
        is_trusted_router(target),
    ensures
        request_outcome(Some(fresh_commit(hash)), target, hash, true, true) == (
        Some(SwapCommit { hash, used: true }), Ok::<(), CustomError>(())),
        request_outcome(Some(SwapCommit { hash, used: true }), target, hash, fee_ok, forward_ok) == (
        Some(SwapCommit { hash, used: true }), Err::<(), CustomError>(CustomError::AlreadyConsumed)),
{
}

/// A request that names any routing program but the trusted one fails with
/// `InvalidRoutingTarget` before any other check, so no run starts and no fee
/// moves, and the record stays as it was.
pub proof fn lemma_untrusted_router_rejected(
    record: Option<SwapCommit>,
    target: Key,
    hash: Key,
    fee_ok: bool,
    forward_ok: bool,
)
    requires
        !is_trusted_router(target),
    ensures
        reveal_error(record, target, hash) == Some(CustomError::InvalidRoutingTarget),
        request_outcome(record, target, hash, fee_ok, forward_ok) == (record, Err::<(), CustomError>(
            CustomError::InvalidRoutingTarget,
        )),
{
}

/// Committing again re-arms the cycle: after a successful swap of `first`, a
/// commit of `second` followed by its reveal succeeds again.
pub proof fn lemma_recommit_rearms(first: Key, second: Key, target: Key)
    requires
        is_trusted_router(target),
    ensures
        request_outcome(Some(fresh_commit(first)), target, first, true, true).1 is Ok,
        request_outcome(Some(fresh_commit(second)), target, second, true, true) == (
        Some(SwapCommit { hash: second, used: true }), Ok::<(), CustomError>(())),
{
}

/// When the fee transfer fails, the run is aborted, never reaches the stage that
/// forwards the call, whatever is reported after, and its record stays unused;
/// the request fails with `FeeTransferFailed` and leaves the stored record as it was.
pub proof fn lemma_failed_fee_transfer_stops_request(
    record: Option<SwapCommit>,
    commit: SwapCommit,
    target: Key,
    hash: Key,
    later: bool,
    forward_ok: bool,
)
    requires
        !commit.used,
    ensures
        next_stage(SwapStage::AwaitingFeeTransfer, false) == SwapStage::Aborted(
            CustomError::FeeTransferFailed,
        ),
        next_stage(next_stage(SwapStage::AwaitingFeeTransfer, false), later)
            != SwapStage::AwaitingForward,
        !next_commit(SwapStage::AwaitingFeeTransfer, commit, false).used,
        reveal_error(record, target, hash) is None ==> request_outcome(
            record,
            target,
            hash,
            false,
            forward_ok,
        ) == (record, Err::<(), CustomError>(CustomError::FeeTransferFailed)),
{
}

/// When the forwarded call fails after the fee was paid, the run is aborted
/// with `ForwardedCallFailed` and its record stays unused; the request fails,
/// so the host discards the fee transfer, and the stored record stays as it was.
pub proof fn lemma_failed_forward_rolls_back(
    record: Option<SwapCommit>,
    commit: SwapCommit,
    target: Key,
    hash: Key,
)
    requires
        !commit.used,
    ensures
        next_stage(SwapStage::AwaitingForward, false) == SwapStage::Aborted(
            CustomError::ForwardedCallFailed,
        ),
        !next_commit(SwapStage::AwaitingForward, commit, false).used,
        reveal_error(record, target, hash) is None ==> request_outcome(
            record,
            target,
            hash,
            true,
            false,
        ) == (record, Err::<(), CustomError>(CustomError::ForwardedCallFailed)),
{
}

} // verus!
