//! Rule engine of a timed, two-player growing and selling match with a staked wager.
//!
//! Every operation is a function from the persisted records and the caller's
//! inputs (identity, current time, balances) to the updated records and an
//! audit record, or to a typed error that leaves every record untouched.
//! Storage, the clock, signature checks and token movement are the caller's
//! business: the functions here decide, the caller executes.

pub mod errors;
pub mod identity;
pub mod mixing;
pub mod state;
pub mod instructions;
pub mod invariants;
