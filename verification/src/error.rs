use vstd::prelude::*;

verus! {

/// Why an operation was refused.
#[derive(Clone, Copy, Debug, PartialEq, Eq, Structural)]
pub enum ErrorCode {
    /// The ring holds more than twenty keys.
    RingTooLarge,
    /// The ring holds fewer than two keys.
    RingTooSmall,
    /// The proof is empty, malformed, or does not verify.
    InvalidProof,
    /// The public inputs are empty or do not state the request at hand.
    InvalidPublicInputs,
    /// A record already exists at the target address.
    StorageCollision,
    /// The settlement of an authorised transfer failed.
    SettlementError,
}

/// The words that go with each refusal.
pub open spec fn message_of(code: ErrorCode) -> Seq<char> {
    match code {
        ErrorCode::RingTooLarge => "Ring size must be between 2 and 20"@,
        ErrorCode::RingTooSmall => "Ring must have at least 2 addresses"@,
        ErrorCode::InvalidProof => "Invalid proof provided"@,
        ErrorCode::InvalidPublicInputs => "Invalid public inputs"@,
        ErrorCode::StorageCollision => "A record exists at this address"@,
        ErrorCode::SettlementError => "Settlement failed"@,
    }
}

impl ErrorCode {
    /// The words that go with this refusal.
    pub fn message(&self) -> (text: &'static str)
        ensures
            text@ == message_of(*self),
    {
        match self {
            ErrorCode::RingTooLarge => "Ring size must be between 2 and 20",
            ErrorCode::RingTooSmall => "Ring must have at least 2 addresses",
            ErrorCode::InvalidProof => "Invalid proof provided",
            ErrorCode::InvalidPublicInputs => "Invalid public inputs",
            ErrorCode::StorageCollision => "A record exists at this address",
            ErrorCode::SettlementError => "Settlement failed",
        }
    }
}

} // verus!
