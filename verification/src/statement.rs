//! What a ring signature signs.
//!
//! A statement ends with a domain tag: the digest of a purpose, of the
//! cloud's authority and identifier, and of its ring. A signature of a
//! statement therefore holds for one cloud and one purpose and no other.

use crate::bytes::append;
use crate::cloud::CloudView;
use crate::cloud::ProbabilityCloud;
use crate::primitives::sha256;
use crate::primitives::sha256_digest;
use vstd::bytes::spec_u64_to_le_bytes;
use vstd::bytes::u64_to_le_bytes;
use vstd::prelude::*;

verus! {

/// Marks a domain tag as made for a transfer.
pub const TRANSFER_PURPOSE: u8 = 1;

/// Marks a domain tag as made for a holdings attestation.
pub const HOLDINGS_PURPOSE: u8 = 2;

/// The number of bytes in the statement of a transfer.
pub const TRANSFER_STATEMENT_LEN: usize = 104;

/// The keys of a ring, one after the other.
pub open spec fn ring_bytes(keys: Seq<[u8; 32]>) -> Seq<u8>
    decreases keys.len(),
{
    if keys.len() == 0 {
        Seq::empty()
    } else {
        ring_bytes(keys.drop_last()) + keys.last()@
    }
}

/// What is hashed into a cloud's domain tag: the purpose, the authority, the
/// identifier in eight little-endian bytes, and the ring.
pub open spec fn tag_preimage(purpose: u8, cloud: CloudView) -> Seq<u8> {
    seq![purpose] + cloud.authority@ + spec_u64_to_le_bytes(cloud.cloud_id) + ring_bytes(
        cloud.ring_public_keys,
    )
}

/// The tag that binds a statement to one cloud and one purpose.
pub open spec fn domain_tag_of(purpose: u8, cloud: CloudView) -> Seq<u8> {
    sha256(tag_preimage(purpose, cloud))
}

/// The statement of a transfer: the sender, the recipient, the amount in
/// eight little-endian bytes, and the domain tag.
pub open spec fn transfer_statement_of(
    sender: [u8; 32],
    recipient: [u8; 32],
    amount: u64,
    tag: Seq<u8>,
) -> Seq<u8> {
    sender@ + recipient@ + spec_u64_to_le_bytes(amount) + tag
}

/// The statement of a holdings attestation: the threshold in eight
/// little-endian bytes, and the domain tag.
pub open spec fn holdings_statement_of(threshold: u64, tag: Seq<u8>) -> Seq<u8> {
    spec_u64_to_le_bytes(threshold) + tag
}

/// Whether `public_inputs` has the length of a transfer's statement and ends
/// with the transfer tag of `cloud`.
pub open spec fn bound_to(public_inputs: Seq<u8>, cloud: CloudView) -> bool {
    &&& public_inputs.len() == TRANSFER_STATEMENT_LEN
    &&& public_inputs.subrange(72, 104) == domain_tag_of(TRANSFER_PURPOSE, cloud)
}

/// The domain tag of `cloud` for `purpose`.
pub fn domain_tag(purpose: u8, cloud: &ProbabilityCloud) -> (tag: [u8; 32])
    ensures
        tag@ == domain_tag_of(purpose, cloud@),
{
    let keys = cloud.ring_public_keys();
    let mut input: Vec<u8> = Vec::new();
    input.push(purpose);
    append(&mut input, cloud.authority().as_slice());
    append(&mut input, u64_to_le_bytes(cloud.cloud_id()).as_slice());
    let ghost head = input@;
    let mut i: usize = 0;
    assert(ring_bytes(keys@.take(0)) =~= Seq::<u8>::empty());
    while i < keys.len()
        invariant
            i <= keys.len(),
            input@ == head + ring_bytes(keys@.take(i as int)),
        decreases keys.len() - i,
    {
        append(&mut input, keys[i].as_slice());
        proof {
            let next = keys@.take(i + 1);
            assert(next.drop_last() =~= keys@.take(i as int));
            assert(next.last() == keys@[i as int]);
            assert(input@ =~= head + ring_bytes(next));
        }
        i += 1;
    }
    assert(keys@.take(keys.len() as int) =~= keys@);
    assert(input@ =~= tag_preimage(purpose, cloud@));
    sha256_digest(input.as_slice())
}

/// The statement that a ring signature must sign to authorise the transfer
/// of `amount` from `sender` to `recipient` on behalf of `cloud`.
pub fn transfer_statement(
    cloud: &ProbabilityCloud,
    sender: &[u8; 32],
    recipient: &[u8; 32],
    amount: u64,
) -> (statement: Vec<u8>)
    ensures
        statement@ == transfer_statement_of(
            *sender,
            *recipient,
            amount,
            domain_tag_of(TRANSFER_PURPOSE, cloud@),
        ),
{
    let tag = domain_tag(TRANSFER_PURPOSE, cloud);
    let mut statement: Vec<u8> = Vec::new();
    append(&mut statement, sender.as_slice());
    append(&mut statement, recipient.as_slice());
    append(&mut statement, u64_to_le_bytes(amount).as_slice());
    append(&mut statement, tag.as_slice());
    assert(statement@ =~= transfer_statement_of(*sender, *recipient, amount, tag@));
    statement
}

/// The statement that a ring signature must sign to ask for the attestation
/// that the holdings of `cloud` reach `threshold`.
pub fn holdings_statement(cloud: &ProbabilityCloud, threshold: u64) -> (statement: Vec<u8>)
    ensures
        statement@ == holdings_statement_of(threshold, domain_tag_of(HOLDINGS_PURPOSE, cloud@)),
{
    let tag = domain_tag(HOLDINGS_PURPOSE, cloud);
    let mut statement: Vec<u8> = Vec::new();
    append(&mut statement, u64_to_le_bytes(threshold).as_slice());
    append(&mut statement, tag.as_slice());
    assert(statement@ =~= holdings_statement_of(threshold, tag@));
    statement
}

} // verus!
