//! What an authorised transfer hands to the ledger, and what the ledger's
//! answer leaves.

use crate::error::ErrorCode;
use vstd::bytes::spec_u64_to_le_bytes;
use vstd::prelude::*;

verus! {

/// One account of an instruction, and what the instruction may do with it.
#[derive(Clone, Copy, Debug, PartialEq, Eq)]
pub struct AccountRole {
    pub key: [u8; 32],
    pub is_signer: bool,
    pub is_writable: bool,
}

impl AccountRole {
    /// The role of the account `key`.
    pub fn new(key: [u8; 32], is_signer: bool, is_writable: bool) -> (role: AccountRole)
        ensures
            role == (AccountRole { key, is_signer, is_writable }),
    {
        AccountRole { key, is_signer, is_writable }
    }
}

/// An instruction for another program of the ledger, as plain values.
#[derive(Debug, PartialEq, Eq)]
pub struct SettlementInstruction {
    pub program_id: [u8; 32],
    pub accounts: Vec<AccountRole>,
    pub data: Vec<u8>,
}

impl SettlementInstruction {
    /// Whether this is the system program's instruction that moves `lamports`
    /// from `from` to `to`: addressed to the system program (thirty-two zero
    /// bytes), with the payer as a writable signer, the payee as writable, and
    /// as data the number 2 in four little-endian bytes followed by `lamports`
    /// in eight.
    pub open spec fn is_system_transfer(&self, from: [u8; 32], to: [u8; 32], lamports: u64) -> bool {
        &&& self.program_id@ == Seq::new(32, |i: int| 0u8)
        &&& self.accounts@ == seq![
            AccountRole { key: from, is_signer: true, is_writable: true },
            AccountRole { key: to, is_signer: false, is_writable: true },
        ]
        &&& self.data@ == seq![2u8, 0u8, 0u8, 0u8] + spec_u64_to_le_bytes(lamports)
    }
}

/// The record that a transfer was settled.
#[derive(Clone, Copy, Debug, PartialEq, Eq, Structural)]
pub struct TransferExecuted {
    pub amount: u64,
}

/// Concludes an authorised transfer of `amount` once the ledger has said
/// whether it settled: a settled transfer leaves one record of the amount, a
/// failed one the settlement error and no record.
pub fn conclude_transfer(amount: u64, settled: bool) -> (record: Result<TransferExecuted, ErrorCode>)
    ensures
        settled ==> record == Ok::<TransferExecuted, ErrorCode>(TransferExecuted { amount }),
        !settled ==> record == Err::<TransferExecuted, ErrorCode>(ErrorCode::SettlementError),
{
    if settled {
        Ok(TransferExecuted { amount })
    } else {
        Err(ErrorCode::SettlementError)
    }
}

} // verus!
