//! Why a swap request is refused.
use vstd::prelude::*;

verus! {

/// The first condition that failed in a swap request. Every error aborts the
/// whole request: the host discards all of its effects.
#[derive(Clone, Copy, Debug, PartialEq, Eq, Structural)]
pub enum CustomError {
    /// The request names a routing program other than the trusted one.
    InvalidRoutingTarget,
    /// The revealed hash does not match the stored commitment, or there is none.
    InvalidReveal,
    /// The commitment already funded a forwarded call.
    AlreadyConsumed,
    /// The ledger refused to move the fee.
    FeeTransferFailed,
    /// The routing program refused or aborted the forwarded instruction.
    ForwardedCallFailed,
}

} // verus!
