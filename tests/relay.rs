use cpi_swap_program::{
    commitswap, fee_amount, is_jupiter_program, jupiter_program_id, keys_equal, swap, CommitSwap,
    CustomError, ForwardedAccount, Key, Swap, SwapCommit, SwapRun, SwapStage,
    JUPITER_PROGRAM_ADDRESS,
};

const ROUTER: Key = [
    4, 121, 213, 91, 242, 49, 192, 110, 238, 116, 197, 110, 206, 104, 21, 7, 253, 177, 178, 222,
    163, 244, 142, 81, 2, 177, 205, 162, 86, 188, 19, 143,
];

fn key(b: u8) -> Key {
    [b; 32]
}

fn committed(hash: Key) -> Option<SwapCommit> {
    let mut ctx = CommitSwap { sender: key(1), commit_account: None };
    assert_eq!(commitswap(&mut ctx, hash), Ok(()));
    ctx.commit_account
}

fn request(record: Option<SwapCommit>, target: Key, hash: Key, amount: u64) -> Result<SwapRun, CustomError> {
    let ctx = Swap {
        sender: key(1),
        sender_token_account: key(2),
        fee_account: key(3),
        input_mint_program: key(4),
        commit_swap: record,
        jupiter_program: target,
        remaining_accounts: vec![
            ForwardedAccount { pubkey: key(7), is_signer: true, is_writable: false },
            ForwardedAccount { pubkey: key(8), is_signer: false, is_writable: true },
        ],
    };
    swap(ctx, vec![9, 8, 7], hash, amount)
}

/// Drives a whole request; returns the record to store and the result.
fn run_request(
    record: Option<SwapCommit>,
    hash: Key,
    fee_ok: bool,
    forward_ok: bool,
) -> (Option<SwapCommit>, Result<(), CustomError>, bool) {
    let mut forwarded = false;
    let mut run = match request(record, ROUTER, hash, 5000) {
        Ok(run) => run,
        Err(e) => return (record, Err(e), forwarded),
    };
    loop {
        match run.stage {
            SwapStage::AwaitingFeeTransfer => run.step(fee_ok),
            SwapStage::AwaitingForward => {
                forwarded = true;
                run.step(forward_ok)
            }
            _ => break,
        }
    }
    match run.outcome() {
        Some(Ok(c)) => (Some(c), Ok(()), forwarded),
        Some(Err(e)) => (record, Err(e), forwarded),
        None => unreachable!(),
    }
}

fn same_record(a: Option<SwapCommit>, b: Option<SwapCommit>) -> bool {
    match (a, b) {
        (None, None) => true,
        (Some(x), Some(y)) => x.hash == y.hash && x.used == y.used,
        _ => false,
    }
}

#[test]
fn fee_values() {
    assert_eq!(fee_amount(0), 1);
    assert_eq!(fee_amount(999), 1);
    assert_eq!(fee_amount(1000), 1);
    assert_eq!(fee_amount(1999), 1);
    assert_eq!(fee_amount(2000), 2);
    assert_eq!(fee_amount(5000), 5);
    assert_eq!(fee_amount(2_500_000), 2500);
    assert_eq!(fee_amount(u64::MAX), u64::MAX / 1000);
}

#[test]
fn router_identity_parses() {
    assert_eq!(jupiter_program_id(), Some(ROUTER));
    assert_eq!(JUPITER_PROGRAM_ADDRESS, "JUP6LkbZbjS1jKKwapdHNy74zcZ3tLUZoi5QNyVTaV4");
    assert!(is_jupiter_program(&ROUTER));
    assert!(!is_jupiter_program(&key(5)));
}

#[test]
fn keys_compare_bytewise() {
    let mut other = key(3);
    assert!(keys_equal(&key(3), &other));
    other[31] = 4;
    assert!(!keys_equal(&key(3), &other));
}

#[test]
fn commit_creates_and_rearms() {
    let mut ctx = CommitSwap { sender: key(1), commit_account: None };
    assert_eq!(commitswap(&mut ctx, key(10)), Ok(()));
    assert!(same_record(ctx.commit_account, Some(SwapCommit { hash: key(10), used: false })));
    ctx.commit_account = Some(SwapCommit { hash: key(10), used: true });
    assert_eq!(commitswap(&mut ctx, key(11)), Ok(()));
    assert!(same_record(ctx.commit_account, Some(SwapCommit { hash: key(11), used: false })));
    assert_eq!(ctx.sender, key(1));
}

#[test]
fn mismatched_reveal_is_rejected() {
    let record = committed(key(10));
    let (after, result, forwarded) = run_request(record, key(11), true, true);
    assert_eq!(result, Err(CustomError::InvalidReveal));
    assert!(same_record(after, record));
    assert!(!forwarded);
}

#[test]
fn reveal_without_commit_is_rejected() {
    assert_eq!(request(None, ROUTER, key(10), 5).err(), Some(CustomError::InvalidReveal));
}

#[test]
fn reveal_succeeds_once() {
    let record = committed(key(10));
    let (after, result, forwarded) = run_request(record, key(10), true, true);
    assert_eq!(result, Ok(()));
    assert!(forwarded);
    assert!(same_record(after, Some(SwapCommit { hash: key(10), used: true })));
    let (again, result, forwarded) = run_request(after, key(10), true, true);
    assert_eq!(result, Err(CustomError::AlreadyConsumed));
    assert!(!forwarded);
    assert!(same_record(again, after));
}

#[test]
fn untrusted_router_is_rejected() {
    let record = committed(key(10));
    assert_eq!(request(record, key(5), key(10), 5000).err(), Some(CustomError::InvalidRoutingTarget));
    assert_eq!(request(record, key(5), key(11), 5000).err(), Some(CustomError::InvalidRoutingTarget));
}

#[test]
fn started_run_carries_fee_and_call() {
    let run = request(committed(key(10)), ROUTER, key(10), 2_500_000).ok().unwrap();
    assert_eq!(run.stage, SwapStage::AwaitingFeeTransfer);
    assert_eq!(run.transfer.amount, 2500);
    assert_eq!(run.transfer.token_program, key(4));
    assert_eq!(run.transfer.from, key(2));
    assert_eq!(run.transfer.to, key(3));
    assert_eq!(run.transfer.authority, key(1));
    assert_eq!(run.call.program_id, ROUTER);
    assert_eq!(run.call.data, vec![9, 8, 7]);
    assert_eq!(run.call.accounts.len(), 2);
    assert_eq!(run.call.accounts[0].pubkey, key(7));
    assert!(run.call.accounts[0].is_signer && !run.call.accounts[0].is_writable);
    assert!(!run.call.accounts[1].is_signer && run.call.accounts[1].is_writable);
    assert!(run.outcome().is_none());
}

#[test]
fn recommit_rearms_cycle() {
    let (after, result, _) = run_request(committed(key(10)), key(10), true, true);
    assert_eq!(result, Ok(()));
    let mut ctx = CommitSwap { sender: key(1), commit_account: after };
    assert_eq!(commitswap(&mut ctx, key(12)), Ok(()));
    let (last, result, _) = run_request(ctx.commit_account, key(12), true, true);
    assert_eq!(result, Ok(()));
    assert!(same_record(last, Some(SwapCommit { hash: key(12), used: true })));
}

#[test]
fn failed_fee_transfer_stops_request() {
    let record = committed(key(10));
    let (after, result, forwarded) = run_request(record, key(10), false, true);
    assert_eq!(result, Err(CustomError::FeeTransferFailed));
    assert!(!forwarded);
    assert!(same_record(after, record));
}

#[test]
fn failed_forward_leaves_record_unused() {
    let record = committed(key(10));
    let (after, result, forwarded) = run_request(record, key(10), true, false);
    assert_eq!(result, Err(CustomError::ForwardedCallFailed));
    assert!(forwarded);
    assert!(same_record(after, record));
}

#[test]
fn finished_runs_stay_put() {
    let mut run = request(committed(key(10)), ROUTER, key(10), 0).ok().unwrap();
    assert_eq!(run.transfer.amount, 1);
    run.step(false);
    run.step(true);
    assert_eq!(run.stage, SwapStage::Aborted(CustomError::FeeTransferFailed));
    assert!(!run.commit.used);
    assert!(matches!(run.outcome(), Some(Err(CustomError::FeeTransferFailed))));
}
