//! Ring signatures over a cloud's keys.
//!
//! A signature shows that the holder of the secret key of one of the ring's
//! public keys signed a statement, and not which. The scheme is the Schnorr
//! ring signature of Abe, Ohkubo and Suzuki over edwards25519, with SHA-256
//! as the hash. The keys are points of the curve in compressed form. A
//! signature over a ring of `n` keys `P_0 .. P_(n-1)` is `n + 1` scalars of
//! thirty-two bytes each: a first challenge `c_0`, then one response `s_i`
//! for each key. With `B` the base point, the verifier walks the ring: from
//! `c_i` it computes the commitment `s_i * B + c_i * P_i` and takes as
//! `c_(i+1)` the digest of the statement and the commitment, reduced to a
//! scalar. The signature is good when the walk ends on the challenge it
//! began with.
//!
//! A signer who holds the secret `x` of `P_j` picks a nonce `a`, starts the
//! walk after `j` with the commitment `a * B`, picks the other responses
//! freely, and closes the ring with `s_j = a - c_j * x`.
//!
//! A key of small order has no secret key, and a ring that held one would
//! close for anyone: such a ring authorises nothing. Two signatures by one
//! member cannot be told from two by different members, and a signature can
//! be presented again: the verifier keeps no record of what it has seen.

use crate::bytes::append;
use crate::bytes::key_eq;
use crate::bytes::read_key;
use crate::cloud::CloudView;
use crate::cloud::ProbabilityCloud;
use crate::error::ErrorCode;
use crate::primitives::edwards_combination;
use crate::primitives::edwards_double_mul;
use crate::primitives::sha256;
use crate::primitives::sha256_digest;
use crate::statement::bound_to;
use crate::statement::domain_tag;
use crate::statement::TRANSFER_PURPOSE;
use crate::statement::TRANSFER_STATEMENT_LEN;
use vstd::prelude::*;

verus! {

/// The base point of edwards25519, in compressed form.
pub const BASEPOINT: [u8; 32] = [
    0x58, 0x66, 0x66, 0x66, 0x66, 0x66, 0x66, 0x66,
    0x66, 0x66, 0x66, 0x66, 0x66, 0x66, 0x66, 0x66,
    0x66, 0x66, 0x66, 0x66, 0x66, 0x66, 0x66, 0x66,
    0x66, 0x66, 0x66, 0x66, 0x66, 0x66, 0x66, 0x66,
];

/// The neutral point of edwards25519, in compressed form.
pub const NEUTRAL_POINT: [u8; 32] = [
    0x01, 0x00, 0x00, 0x00, 0x00, 0x00, 0x00, 0x00,
    0x00, 0x00, 0x00, 0x00, 0x00, 0x00, 0x00, 0x00,
    0x00, 0x00, 0x00, 0x00, 0x00, 0x00, 0x00, 0x00,
    0x00, 0x00, 0x00, 0x00, 0x00, 0x00, 0x00, 0x00,
];

/// The scalar eight, the cofactor of edwards25519.
pub const COFACTOR: [u8; 32] = [
    0x08, 0x00, 0x00, 0x00, 0x00, 0x00, 0x00, 0x00,
    0x00, 0x00, 0x00, 0x00, 0x00, 0x00, 0x00, 0x00,
    0x00, 0x00, 0x00, 0x00, 0x00, 0x00, 0x00, 0x00,
    0x00, 0x00, 0x00, 0x00, 0x00, 0x00, 0x00, 0x00,
];

/// The scalar zero.
pub const ZERO: [u8; 32] = [
    0x00, 0x00, 0x00, 0x00, 0x00, 0x00, 0x00, 0x00,
    0x00, 0x00, 0x00, 0x00, 0x00, 0x00, 0x00, 0x00,
    0x00, 0x00, 0x00, 0x00, 0x00, 0x00, 0x00, 0x00,
    0x00, 0x00, 0x00, 0x00, 0x00, 0x00, 0x00, 0x00,
];

/// What a verifier says of a proof.
#[derive(Clone, Copy, Debug, PartialEq, Eq, Structural)]
pub enum Verdict {
    /// The proof shows what it claims.
    Accepted,
    /// The proof is refused, for the reason given.
    Rejected(ErrorCode),
}

/// A ring signature with the statement that it signs.
#[derive(Debug, PartialEq, Eq)]
pub struct RingProof {
    pub signature_bytes: Vec<u8>,
    pub public_inputs: Vec<u8>,
}

/// A digest with its four highest bits cleared, which makes it a canonical
/// scalar.
pub open spec fn reduced(digest: Seq<u8>) -> Seq<u8> {
    digest.update(31, digest[31] & 0x0f)
}

/// The challenge that follows a commitment.
pub open spec fn challenge_of(statement: Seq<u8>, commitment: Seq<u8>) -> Seq<u8> {
    reduced(sha256(statement + commitment))
}

/// The first challenge of a signature.
pub open spec fn first_challenge_of(signature: Seq<u8>) -> Seq<u8> {
    signature.subrange(0, 32)
}

/// The response of a signature for the key at `i`.
pub open spec fn response_of(signature: Seq<u8>, i: int) -> Seq<u8> {
    signature.subrange(32 * (i + 1), 32 * (i + 2))
}

/// The challenge reached after `steps` keys of the ring, or `None` where a
/// scalar or a key met on the way is not valid.
pub open spec fn walk(keys: Seq<[u8; 32]>, statement: Seq<u8>, signature: Seq<u8>, steps: nat) -> Option<
    Seq<u8>,
>
    decreases steps,
{
    if steps == 0 {
        Some(first_challenge_of(signature))
    } else {
        match walk(keys, statement, signature, (steps - 1) as nat) {
            None => None,
            Some(challenge) => match edwards_combination(
                response_of(signature, steps - 1),
                BASEPOINT@,
                challenge,
                keys[steps - 1]@,
            ) {
                None => None,
                Some(commitment) => Some(challenge_of(statement, commitment)),
            },
        }
    }
}

/// Whether `key` is a point of small order: eight times the point is the
/// neutral point.
pub open spec fn has_small_order(key: Seq<u8>) -> bool {
    edwards_combination(COFACTOR@, key, ZERO@, BASEPOINT@) == Some(NEUTRAL_POINT@)
}

/// Whether no key of the ring is a point of small order.
pub open spec fn ring_is_proper(keys: Seq<[u8; 32]>) -> bool {
    forall|i: int| 0 <= i < keys.len() ==> !has_small_order((#[trigger] keys[i])@)
}

/// Whether `signature` is a ring signature of `statement` under `keys`: the
/// ring is not empty, the signature has one challenge and one response for
/// each key, no key is of small order, and the walk round the ring ends on
/// the first challenge.
pub open spec fn closes(keys: Seq<[u8; 32]>, statement: Seq<u8>, signature: Seq<u8>) -> bool {
    &&& keys.len() > 0
    &&& signature.len() == 32 * (keys.len() + 1)
    &&& ring_is_proper(keys)
    &&& walk(keys, statement, signature, keys.len()) == Some(first_challenge_of(signature))
}

/// A walk that has failed stays failed.
proof fn walk_stays_failed(
    keys: Seq<[u8; 32]>,
    statement: Seq<u8>,
    signature: Seq<u8>,
    failed: nat,
    steps: nat,
)
    requires
        failed <= steps,
        walk(keys, statement, signature, failed) is None,
    ensures
        walk(keys, statement, signature, steps) is None,
    decreases steps,
{
    if failed < steps {
        walk_stays_failed(keys, statement, signature, failed, (steps - 1) as nat);
    }
}

/// Clears the four highest bits of a digest.
pub fn reduce_digest(digest: [u8; 32]) -> (scalar: [u8; 32])
    ensures
        scalar@ == reduced(digest@),
{
    let mut scalar = digest;
    scalar[31] = digest[31] & 0x0f;
    scalar
}

/// The challenge that follows `commitment` in a signature of `statement`.
pub fn link_challenge(statement: &[u8], commitment: &[u8; 32]) -> (challenge: [u8; 32])
    ensures
        challenge@ == challenge_of(statement@, commitment@),
{
    let mut input: Vec<u8> = Vec::new();
    append(&mut input, statement);
    append(&mut input, commitment.as_slice());
    assert(input@ =~= statement@ + commitment@);
    reduce_digest(sha256_digest(input.as_slice()))
}

/// Whether `key` is a point of small order.
pub fn key_has_small_order(key: &[u8; 32]) -> (small: bool)
    ensures
        small == has_small_order(key@),
{
    match edwards_double_mul(&COFACTOR, key, &ZERO, &BASEPOINT) {
        Some(point) => key_eq(&point, &NEUTRAL_POINT),
        None => false,
    }
}

/// Whether no key of the ring is a point of small order.
pub fn ring_has_proper_keys(keys: &Vec<[u8; 32]>) -> (proper: bool)
    ensures
        proper == ring_is_proper(keys@),
{
    let mut i: usize = 0;
    while i < keys.len()
        invariant
            i <= keys.len(),
            forall|j: int| 0 <= j < i ==> !has_small_order((#[trigger] keys@[j])@),
        decreases keys.len() - i,
    {
        if key_has_small_order(&keys[i]) {
            return false;
        }
        i += 1;
    }
    true
}

/// Whether `signature` is a ring signature of `statement` under `keys`.
pub fn ring_signature_closes(keys: &Vec<[u8; 32]>, statement: &[u8], signature: &[u8]) -> (good: bool)
    ensures
        good == closes(keys@, statement@, signature@),
{
    let n = keys.len();
    if n == 0 || signature.len() % 32 != 0 || signature.len() / 32 == 0 || signature.len() / 32 - 1
        != n {
        return false;
    }
    if !ring_has_proper_keys(keys) {
        return false;
    }
    let first = read_key(signature, 0);
    let mut challenge = first;
    let mut i: usize = 0;
    while i < n
        invariant
            i <= n,
            n == keys@.len(),
            signature@.len() == 32 * (n + 1),
            signature@.len() <= usize::MAX,
            walk(keys@, statement@, signature@, i as nat) == Some(challenge@),
        decreases n - i,
    {
        let response = read_key(signature, 32 * (i + 1));
        match edwards_double_mul(&response, &BASEPOINT, &challenge, &keys[i]) {
            None => {
                proof {
                    walk_stays_failed(keys@, statement@, signature@, (i + 1) as nat, n as nat);
                }
                return false;
            },
            Some(commitment) => {
                challenge = link_challenge(statement, &commitment);
            },
        }
        i += 1;
    }
    key_eq(&challenge, &first)
}

/// What the verifier says of a signature and its public inputs, presented
/// against `cloud`: an empty signature is refused first, then empty public
/// inputs, then public inputs that are not bound to the cloud, then a
/// signature that does not close over the cloud's ring.
pub open spec fn ring_verdict(cloud: CloudView, signature: Seq<u8>, public_inputs: Seq<u8>) -> Verdict {
    if signature.len() == 0 {
        Verdict::Rejected(ErrorCode::InvalidProof)
    } else if public_inputs.len() == 0 {
        Verdict::Rejected(ErrorCode::InvalidPublicInputs)
    } else if !bound_to(public_inputs, cloud) {
        Verdict::Rejected(ErrorCode::InvalidPublicInputs)
    } else if !closes(cloud.ring_public_keys, public_inputs, signature) {
        Verdict::Rejected(ErrorCode::InvalidProof)
    } else {
        Verdict::Accepted
    }
}

/// The verifier refuses a proof as invalid, or its public inputs as invalid,
/// and for no other reason.
pub proof fn ring_rejection_reasons(cloud: CloudView, signature: Seq<u8>, public_inputs: Seq<u8>)
    ensures
        ring_verdict(cloud, signature, public_inputs) matches Verdict::Rejected(reason) ==> reason
            == ErrorCode::InvalidProof || reason == ErrorCode::InvalidPublicInputs,
{
}

impl RingProof {
    /// Decides whether some member of the ring of `cloud` signed the public
    /// inputs, and whether these were made for this cloud.
    pub fn verify(&self, cloud: &ProbabilityCloud) -> (verdict: Verdict)
        ensures
            verdict == ring_verdict(cloud@, self.signature_bytes@, self.public_inputs@),
    {
        if self.signature_bytes.len() == 0 {
            return Verdict::Rejected(ErrorCode::InvalidProof);
        }
        if self.public_inputs.len() == 0 {
            return Verdict::Rejected(ErrorCode::InvalidPublicInputs);
        }
        if self.public_inputs.len() != TRANSFER_STATEMENT_LEN {
            return Verdict::Rejected(ErrorCode::InvalidPublicInputs);
        }
        let tag = domain_tag(TRANSFER_PURPOSE, cloud);
        let presented = read_key(self.public_inputs.as_slice(), 72);
        if !key_eq(&presented, &tag) {
            return Verdict::Rejected(ErrorCode::InvalidPublicInputs);
        }
        if !ring_signature_closes(
            cloud.ring_public_keys(),
            self.public_inputs.as_slice(),
            self.signature_bytes.as_slice(),
        ) {
            return Verdict::Rejected(ErrorCode::InvalidProof);
        }
        Verdict::Accepted
    }
}

} // verus!
