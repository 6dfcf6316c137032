use vstd::prelude::*;

verus! {

/// Why an operation on the gateway was rejected.
#[derive(Clone, Copy, Debug, PartialEq, Eq, Structural)]
pub enum ErrorCode {
    /// The payment is below the gateway's fee.
    InsufficientPayment,
    /// The signer is not the gateway's authority.
    Unauthorized,
    /// The gateway's address already holds a record.
    AlreadyInitialized,
    /// No record is stored at the given address.
    RecordNotFound,
    /// The record's bump does not re-derive its address, or no address
    /// can be derived.
    AddressMismatch,
    /// The token transfer was refused, with the transfer program's code.
    TransferFailed(u64),
}

} // verus!
