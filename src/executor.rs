//! The reveal-and-forward executor.
//!
//! A swap request is validated by [`swap`], which yields a [`SwapRun`]. The host
//! then performs what the run's stage asks for (the fee transfer, then the
//! forwarded call) and reports each outcome to [`SwapRun::step`]. The caller's
//! record is written back only when the run completes; on any abort the host
//! discards every effect of the request, the fee transfer included.
use crate::commitment::SwapCommit;
use crate::error::CustomError;
use crate::fee::{fee_amount, fee_of};
use crate::key::{keys_equal, Key};
use crate::router::{is_jupiter_program, is_trusted_router};
use vstd::prelude::*;

verus! {

/// An account handed on to the routing program, with its attributes as given.
#[derive(Clone, Copy, Debug)]
pub struct ForwardedAccount {
    pub pubkey: Key,
    pub is_signer: bool,
    pub is_writable: bool,
}

/// The instruction forwarded to the routing program.
pub struct ForwardedCall {
    pub program_id: Key,
    pub accounts: Vec<ForwardedAccount>,
    pub data: Vec<u8>,
}

/// The fee movement asked of the ledger program.
#[derive(Clone, Copy, Debug)]
pub struct FeeTransfer {
    pub token_program: Key,
    pub from: Key,
    pub to: Key,
    pub authority: Key,
    pub amount: u64,
}

/// The accounts of a swap request.
pub struct Swap {
    /// The caller, who signs the request and owns the paying token account.
    pub sender: Key,
    /// The caller's token account that pays the fee.
    pub sender_token_account: Key,
    /// The token account that collects the fee.
    pub fee_account: Key,
    /// The ledger program that moves the fee.
    pub input_mint_program: Key,
    /// The caller's commitment record, `None` if it never committed.
    pub commit_swap: Option<SwapCommit>,
    /// The routing program that the request names.
    pub jupiter_program: Key,
    /// The accounts to hand on to the routing program, in order.
    pub remaining_accounts: Vec<ForwardedAccount>,
}

/// Where a validated swap request stands; each stage but the last two says what
/// the host is to do next.
#[derive(Clone, Copy, Debug, PartialEq, Eq, Structural)]
pub enum SwapStage {
    /// Move the fee as the run's transfer describes.
    AwaitingFeeTransfer,
    /// Invoke the routing program with the run's call.
    AwaitingForward,
    /// Write the run's record back as the caller's commitment.
    Completed,
    /// Fail the whole request with this error.
    Aborted(CustomError),
}

/// A swap request in flight.
pub struct SwapRun {
    pub stage: SwapStage,
    /// The caller's record as it is to be written back on completion.
    pub commit: SwapCommit,
    pub transfer: FeeTransfer,
    pub call: ForwardedCall,
}

/// The first check that a swap request fails, if any: the routing target, then
/// the revealed hash against the stored record, then the record's `used` flag.
pub open spec fn reveal_error(record: Option<SwapCommit>, target: Key, hash: Key) -> Option<
    CustomError,
> {
    if !is_trusted_router(target) {
        Some(CustomError::InvalidRoutingTarget)
    } else {
        match record {
            None => Some(CustomError::InvalidReveal),
            Some(c) => if c.hash != hash {
                Some(CustomError::InvalidReveal)
            } else if c.used {
                Some(CustomError::AlreadyConsumed)
            } else {
                None
            },
        }
    }
}

/// The stage that follows `stage` once the host reports whether its work succeeded.
pub open spec fn next_stage(stage: SwapStage, succeeded: bool) -> SwapStage {
    match stage {
        SwapStage::AwaitingFeeTransfer => if succeeded {
            SwapStage::AwaitingForward
        } else {
            SwapStage::Aborted(CustomError::FeeTransferFailed)
        },
        SwapStage::AwaitingForward => if succeeded {
            SwapStage::Completed
        } else {
            SwapStage::Aborted(CustomError::ForwardedCallFailed)
        },
        _ => stage,
    }
}

/// The record a run holds after that report: marked used exactly when the
/// forwarded call succeeds.
pub open spec fn next_commit(stage: SwapStage, commit: SwapCommit, succeeded: bool) -> SwapCommit {
    if stage == SwapStage::AwaitingForward && succeeded {
        SwapCommit { used: true, ..commit }
    } else {
        commit
    }
}

/// What a request ends with once its run reaches `stage`: the record to write
/// back on completion, the error on an abort, `None` while work is pending.
pub open spec fn stage_outcome(stage: SwapStage, commit: SwapCommit) -> Option<
    Result<SwapCommit, CustomError>,
> {
    match stage {
        SwapStage::Completed => Some(Ok(commit)),
        SwapStage::Aborted(e) => Some(Err(e)),
        _ => None,
    }
}

/// A whole swap request on the caller's `record`, where the host reports
/// `fee_ok` for the fee transfer and `forward_ok` for the forwarded call: the
/// caller's record after the request, and the request's result.
pub open spec fn request_outcome(
    record: Option<SwapCommit>,
    target: Key,
    hash: Key,
    fee_ok: bool,
    forward_ok: bool,
) -> (Option<SwapCommit>, Result<(), CustomError>) {
    match reveal_error(record, target, hash) {
        Some(e) => (record, Err(e)),
        None => {
            let start = SwapStage::AwaitingFeeTransfer;
            let paid = next_stage(start, fee_ok);
            let commit = next_commit(paid, next_commit(start, record.unwrap(), fee_ok), forward_ok);
            match stage_outcome(next_stage(paid, forward_ok), commit) {
                Some(Ok(c)) => (Some(c), Ok(())),
                Some(Err(e)) => (record, Err(e)),
                None => (record, Ok(())),
            }
        },
    }
}

/// Validates a swap request and, if it passes, starts a run that first asks
/// for the fee transfer. The call carries `data` and the remaining accounts
/// unchanged.
pub fn swap(ctx: Swap, data: Vec<u8>, hash: Key, amount: u64) -> (r: Result<SwapRun, CustomError>)
    ensures
        match reveal_error(ctx.commit_swap, ctx.jupiter_program, hash) {
            Some(e) => r == Err::<SwapRun, CustomError>(e),
            None => r is Ok,
        },
        r matches Ok(run) ==> {
            &&& run.stage == SwapStage::AwaitingFeeTransfer
            &&& ctx.commit_swap == Some(run.commit)
            &&& run.transfer == (FeeTransfer {
                token_program: ctx.input_mint_program,
                from: ctx.sender_token_account,
                to: ctx.fee_account,
                authority: ctx.sender,
                amount: fee_of(amount),
            })
            &&& run.call.program_id == ctx.jupiter_program
            &&& run.call.accounts@ == ctx.remaining_accounts@
            &&& run.call.data@ == data@
        },
{
    if !is_jupiter_program(&ctx.jupiter_program) {
        return Err(CustomError::InvalidRoutingTarget);
    }
    let commit = match ctx.commit_swap {
        None => {
            return Err(CustomError::InvalidReveal);
        },
        Some(c) => c,
    };
    if !keys_equal(&commit.hash, &hash) {
        return Err(CustomError::InvalidReveal);
    }
    if commit.used {
        return Err(CustomError::AlreadyConsumed);
    }
    let fee = fee_amount(amount);
    let transfer = FeeTransfer {
        token_program: ctx.input_mint_program,
        from: ctx.sender_token_account,
        to: ctx.fee_account,
        authority: ctx.sender,
        amount: fee,
    };
    let call = ForwardedCall {
        program_id: ctx.jupiter_program,
        accounts: ctx.remaining_accounts,
        data,
    };
    Ok(SwapRun { stage: SwapStage::AwaitingFeeTransfer, commit, transfer, call })
}

impl SwapRun {
    /// Takes the host's report on the work the current stage asked for, and
    /// moves to the next stage. A completed or aborted run stays as it is.
    pub fn step(&mut self, succeeded: bool)
        ensures
            final(self).stage == next_stage(old(self).stage, succeeded),
            final(self).commit == next_commit(old(self).stage, old(self).commit, succeeded),
            final(self).transfer == old(self).transfer,
            final(self).call == old(self).call,
    {
        match self.stage {
            SwapStage::AwaitingFeeTransfer => {
                if succeeded {
                    self.stage = SwapStage::AwaitingForward;
                } else {
                    self.stage = SwapStage::Aborted(CustomError::FeeTransferFailed);
                }
            },
            SwapStage::AwaitingForward => {
                if succeeded {
                    self.stage = SwapStage::Completed;
                    self.commit.used = true;
                } else {
                    self.stage = SwapStage::Aborted(CustomError::ForwardedCallFailed);
                }
            },
            _ => {},
        }
    }

    /// The record to write back if the run completed, its error if it was
    /// aborted, `None` while the host still has work to do.
    pub fn outcome(&self) -> (r: Option<Result<SwapCommit, CustomError>>)
        ensures
            r == stage_outcome(self.stage, self.commit),
    {
        match self.stage {
            SwapStage::Completed => Some(Ok(self.commit)),
            SwapStage::Aborted(e) => Some(Err(e)),
            _ => None,
        }
    }
}

} // verus!
