//! A per-client ledger of deposits, withdrawals and their dispute lifecycle.
//!
//! Amounts are fixed-point integers counting ten-thousandths of a unit.
pub mod errors;
pub mod structures;
pub mod ledger;
pub mod laws;
