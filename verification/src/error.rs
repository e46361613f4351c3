//! The conditions under which a ledger call is refused.

use vstd::prelude::*;

verus! {

/// Why a call was refused. A refused call leaves the store as it was.
#[derive(Clone, Copy, Debug, PartialEq, Eq, Structural)]
pub enum ContractError {
    /// The call data is missing or malformed: no single positive fund
    /// attached, a zero amount, or an identity too long for a storage key.
    InvalidInput,
    /// A balance or a count would exceed what its integer can hold.
    ArithmeticOverflow,
    /// A withdrawal asks for more than the recorded balance.
    InsufficientFunds,
    /// The stored state is not what the ledger itself could have written:
    /// a count that would drop below zero, or a stored entry that does not
    /// decode.
    InvalidState,
    /// A withdrawal names a depositor and denomination with no record.
    RecordNotFound,
}

/// Whether `result` is the refusal `error`.
pub open spec fn fails_with<T>(result: Result<T, ContractError>, error: ContractError) -> bool {
    result matches Err(refusal) && refusal == error
}

} // verus!
