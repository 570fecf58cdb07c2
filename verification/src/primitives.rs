//! The cryptographic and ledger primitives that the library takes from other
//! crates. Nothing in this file is proved: each function's contract is what
//! the library believes of the function it calls.

use crate::settlement::AccountRole;
use crate::settlement::SettlementInstruction;
use anchor_lang::solana_program::pubkey::Pubkey;
use anchor_lang::solana_program::system_instruction;
use sha2::Digest;
use solana_curve25519::edwards::multiscalar_multiply_edwards;
use solana_curve25519::edwards::PodEdwardsPoint;
use solana_curve25519::scalar::PodScalar;
use vstd::prelude::*;

verus! {

/// The SHA-256 digest of `data`.
pub uninterp spec fn sha256(data: Seq<u8>) -> Seq<u8>;

/// The compressed encoding of `a * P + b * Q` on edwards25519, where `a` and
/// `b` are canonical little-endian scalars and `p`, `q` the compressed
/// encodings of `P` and `Q`; `None` where a scalar is not canonical or an
/// encoding is not that of a point.
pub uninterp spec fn edwards_combination(a: Seq<u8>, p: Seq<u8>, b: Seq<u8>, q: Seq<u8>) -> Option<
    Seq<u8>,
>;

/// The view of an optional point.
pub open spec fn point_view(point: Option<[u8; 32]>) -> Option<Seq<u8>> {
    match point {
        Some(bytes) => Some(bytes@),
        None => None,
    }
}

/// Calls `sha2::Sha256::digest`. Believed: the result is the SHA-256 digest
/// of `data`, a function of `data` alone.
#[verifier::external_body]
pub(crate) fn sha256_digest(data: &[u8]) -> (digest: [u8; 32])
    ensures
        digest@ == sha256(data@),
{
    sha2::Sha256::digest(data).into()
}

/// Calls `solana_curve25519::edwards::multiscalar_multiply_edwards` on two
/// scalars and two points. Believed: the result is the compressed encoding of
/// `a * P + b * Q`, or `None` where a scalar is not canonical or an encoding
/// is not that of a point; a function of the four arguments alone.
#[verifier::external_body]
pub(crate) fn edwards_double_mul(a: &[u8; 32], p: &[u8; 32], b: &[u8; 32], q: &[u8; 32]) -> (point:
    Option<[u8; 32]>)
    ensures
        point_view(point) == edwards_combination(a@, p@, b@, q@),
{
    multiscalar_multiply_edwards(
        &[PodScalar(*a), PodScalar(*b)],
        &[PodEdwardsPoint(*p), PodEdwardsPoint(*q)],
    ).map(|point| point.0)
}

/// Calls `anchor_lang::solana_program::system_instruction::transfer`.
/// Believed: the instruction it builds is addressed to the system program,
/// names `from` as a writable signer and `to` as writable, and carries the
/// bincode encoding of `SystemInstruction::Transfer { lamports }`.
#[verifier::external_body]
pub(crate) fn system_transfer_instruction(from: &[u8; 32], to: &[u8; 32], lamports: u64) -> (ix:
    SettlementInstruction)
    ensures
        ix.is_system_transfer(*from, *to, lamports),
{
    let payer = Pubkey::new_from_array(*from);
    let ix = system_instruction::transfer(&payer, &Pubkey::new_from_array(*to), lamports);
    SettlementInstruction {
        program_id: ix.program_id.to_bytes(),
        accounts: ix.accounts.iter().map(
            |meta| AccountRole::new(meta.pubkey.to_bytes(), meta.is_signer, meta.is_writable),
        ).collect(),
        data: ix.data,
    }
}

} // verus!
