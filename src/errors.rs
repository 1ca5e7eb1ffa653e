use vstd::prelude::*;

verus! {

/// Failures of the ledger and of the stages that feed it.
#[derive(Debug)]
pub enum KrakenError {
    IO,
    Enum(String),
    DisputeChronoError(u32, u32),
    DisputeStateError(String),
    NoSuchTransactionError(u32),
    AccountLocked(u32),
    InsufficientFunds(u32),
    Error,
}

} // verus!
