//! A two-phase commit-reveal swap relay.
//!
//! A caller first stores a 32-byte commitment to a swap instruction; later it
//! reveals the instruction, pays a small fee and has the instruction forwarded,
//! verbatim, to one fixed routing program. A commitment funds at most one
//! forwarded call until the caller commits again.
pub mod commitment;
pub mod error;
pub mod executor;
pub mod fee;
pub mod key;
pub mod laws;
pub mod router;

pub use commitment::{commitswap, CommitSwap, SwapCommit};
pub use error::CustomError;
pub use executor::{swap, FeeTransfer, ForwardedAccount, ForwardedCall, Swap, SwapRun, SwapStage};
pub use fee::fee_amount;
pub use key::{keys_equal, Key};
pub use router::{is_jupiter_program, jupiter_program_id, JUPITER_PROGRAM_ADDRESS};
