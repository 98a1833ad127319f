//! The ways in which a call on the ledger can fail.

use vstd::prelude::*;

verus! {

/// Why a call was refused. Every error ends the call; the ledger is then
/// left exactly as it was before the call.
#[derive(Clone, Copy, Debug, PartialEq, Eq, Structural)]
pub enum ContractError {
    /// A payment names its own sender as the receiver.
    InvalidRecipient,
    /// The deadline of a new payment would not lie after the present moment.
    InvalidDeadline,
    /// A payment comes without any funds attached.
    ZeroPayment,
    /// The caller has no payment under the given id.
    NotFound,
    /// The payment was claimed before.
    AlreadyClaimed,
    /// The payment was reverted before.
    AlreadyReverted,
    /// The deadline of the payment has passed.
    DeadlineExpired,
    /// The backing store holds something that the ledger never writes.
    StorageCorruption,
}

impl ContractError {
    /// The sentence shown to a caller for this error.
    pub open spec fn text(self) -> Seq<char> {
        match self {
            ContractError::InvalidRecipient => "Sender and receiver cannot be the same"@,
            ContractError::InvalidDeadline => "Deadline must be in the future"@,
            ContractError::ZeroPayment => "Payment amount must be greater than zero"@,
            ContractError::NotFound => "Payment not found"@,
            ContractError::AlreadyClaimed => "Payment has already been claimed"@,
            ContractError::AlreadyReverted => "Payment has already been reverted"@,
            ContractError::DeadlineExpired => "Payment deadline has passed!"@,
            ContractError::StorageCorruption => "Storage is corrupted"@,
        }
    }

    /// Renders the error as the sentence shown to a caller.
    pub fn message(&self) -> (s: String)
        ensures
            s@ == self.text(),
    {
        match self {
            ContractError::InvalidRecipient => "Sender and receiver cannot be the same".to_owned(),
            ContractError::InvalidDeadline => "Deadline must be in the future".to_owned(),
            ContractError::ZeroPayment => "Payment amount must be greater than zero".to_owned(),
            ContractError::NotFound => "Payment not found".to_owned(),
            ContractError::AlreadyClaimed => "Payment has already been claimed".to_owned(),
            ContractError::AlreadyReverted => "Payment has already been reverted".to_owned(),
            ContractError::DeadlineExpired => "Payment deadline has passed!".to_owned(),
            ContractError::StorageCorruption => "Storage is corrupted".to_owned(),
        }
    }
}

} // verus!
