//! The holdings threshold verifier.
//!
//! The holdings of a ring are the balances that the ledger keeps for its keys,
//! each key counted once. The caller hands them over as the ledger reports
//! them, one for each key of the ring and in the ring's order. A request to
//! attest that they reach a threshold carries a ring signature of the
//! threshold, so that a member of the ring asks for the attestation without
//! saying which. The attestation names the cloud and the threshold and no
//! balance.

use crate::bytes::key_eq;
use crate::cloud::CloudView;
use crate::cloud::ProbabilityCloud;
use crate::error::ErrorCode;
use crate::ring::closes;
use crate::ring::ring_signature_closes;
use crate::ring::Verdict;
use crate::statement::domain_tag_of;
use crate::statement::holdings_statement;
use crate::statement::holdings_statement_of;
use crate::statement::HOLDINGS_PURPOSE;
use vstd::prelude::*;

verus! {

/// The balance that the ledger keeps for one key.
#[derive(Clone, Copy, Debug, PartialEq, Eq)]
pub struct MemberBalance {
    pub key: [u8; 32],
    pub balance: u64,
}

/// A request for a holdings attestation: a ring signature of the threshold.
#[derive(Debug, PartialEq, Eq)]
pub struct HoldingsProof {
    pub proof_bytes: Vec<u8>,
    pub threshold: u64,
}

/// Whether `members` lists the keys of the ring, in the ring's order.
pub open spec fn lists_ring(members: Seq<MemberBalance>, keys: Seq<[u8; 32]>) -> bool {
    &&& members.len() == keys.len()
    &&& forall|i: int| 0 <= i < keys.len() ==> (#[trigger] members[i]).key == keys[i]
}

/// Whether the key at `i` occurs at no earlier place.
pub open spec fn first_listed(members: Seq<MemberBalance>, i: int) -> bool {
    forall|j: int| 0 <= j < i ==> (#[trigger] members[j]).key != members[i].key
}

/// The sum of the balances of the first `count` members, each key counted
/// where it first occurs.
pub open spec fn holdings_upto(members: Seq<MemberBalance>, count: nat) -> nat
    decreases count,
{
    if count == 0 {
        0
    } else {
        holdings_upto(members, (count - 1) as nat) + if first_listed(members, count - 1) {
            members[count - 1].balance as nat
        } else {
            0
        }
    }
}

/// The holdings of the ring that `members` lists.
pub open spec fn aggregate_holdings(members: Seq<MemberBalance>) -> nat {
    holdings_upto(members, members.len())
}

/// What the verifier says of a request to attest that the holdings of `cloud`
/// reach `threshold`: an empty proof is refused first, then a list of
/// balances that is not that of the ring, then a threshold above the
/// holdings, then a proof that is no ring signature of the request.
pub open spec fn holdings_verdict(
    cloud: CloudView,
    members: Seq<MemberBalance>,
    proof: Seq<u8>,
    threshold: u64,
) -> Verdict {
    if proof.len() == 0 {
        Verdict::Rejected(ErrorCode::InvalidProof)
    } else if !lists_ring(members, cloud.ring_public_keys) {
        Verdict::Rejected(ErrorCode::InvalidPublicInputs)
    } else if threshold > aggregate_holdings(members) {
        Verdict::Rejected(ErrorCode::InvalidProof)
    } else if !closes(
        cloud.ring_public_keys,
        holdings_statement_of(threshold, domain_tag_of(HOLDINGS_PURPOSE, cloud)),
        proof,
    ) {
        Verdict::Rejected(ErrorCode::InvalidProof)
    } else {
        Verdict::Accepted
    }
}

/// Of a ring whose holdings are `T`: a threshold above `T` is rejected
/// whatever the proof; a threshold up to `T`, `T` itself included, is
/// accepted exactly when the proof is a ring signature of the request.
pub proof fn threshold_decides(
    cloud: CloudView,
    members: Seq<MemberBalance>,
    proof: Seq<u8>,
    threshold: u64,
)
    requires
        lists_ring(members, cloud.ring_public_keys),
    ensures
        threshold > aggregate_holdings(members) ==> holdings_verdict(
            cloud,
            members,
            proof,
            threshold,
        ) is Rejected,
        threshold <= aggregate_holdings(members) ==> (holdings_verdict(
            cloud,
            members,
            proof,
            threshold,
        ) == Verdict::Accepted <==> closes(
            cloud.ring_public_keys,
            holdings_statement_of(threshold, domain_tag_of(HOLDINGS_PURPOSE, cloud)),
            proof,
        )),
{
}

/// The verifier refuses a proof as invalid, or the balances listed as
/// invalid public inputs, and for no other reason.
pub proof fn holdings_rejection_reasons(
    cloud: CloudView,
    members: Seq<MemberBalance>,
    proof: Seq<u8>,
    threshold: u64,
)
    ensures
        holdings_verdict(cloud, members, proof, threshold) matches Verdict::Rejected(reason)
            ==> reason == ErrorCode::InvalidProof || reason == ErrorCode::InvalidPublicInputs,
{
}

/// Whether `members` lists the keys of the ring, in the ring's order.
pub fn members_list_ring(members: &Vec<MemberBalance>, keys: &Vec<[u8; 32]>) -> (listed: bool)
    ensures
        listed == lists_ring(members@, keys@),
{
    if members.len() != keys.len() {
        return false;
    }
    let mut i: usize = 0;
    while i < keys.len()
        invariant
            i <= keys.len(),
            members.len() == keys.len(),
            forall|j: int| 0 <= j < i ==> (#[trigger] members@[j]).key == keys@[j],
        decreases keys.len() - i,
    {
        if !key_eq(&members[i].key, &keys[i]) {
            return false;
        }
        i += 1;
    }
    true
}

/// Whether the key at `i` occurs at no earlier place.
fn is_first_listed(members: &Vec<MemberBalance>, i: usize) -> (first: bool)
    requires
        i < members.len(),
    ensures
        first == first_listed(members@, i as int),
{
    let mut j: usize = 0;
    while j < i
        invariant
            j <= i,
            i < members.len(),
            forall|k: int| 0 <= k < j ==> (#[trigger] members@[k]).key != members@[i as int].key,
        decreases i - j,
    {
        if key_eq(&members[j].key, &members[i].key) {
            return false;
        }
        j += 1;
    }
    true
}

/// The holdings of the ring that `members` lists.
pub fn total_holdings(members: &Vec<MemberBalance>) -> (total: u128)
    ensures
        total == aggregate_holdings(members@),
{
    let mut total: u128 = 0;
    let mut i: usize = 0;
    while i < members.len()
        invariant
            i <= members.len(),
            members.len() <= u64::MAX,
            total == holdings_upto(members@, i as nat),
            total <= i * u64::MAX,
        decreases members.len() - i,
    {
        assert((i + 1) * u64::MAX == i * u64::MAX + u64::MAX) by (nonlinear_arith);
        assert((i + 1) * u64::MAX <= u64::MAX * u64::MAX) by (nonlinear_arith)
            requires
                i + 1 <= u64::MAX,
        ;
        if is_first_listed(members, i) {
            total = total + members[i].balance as u128;
        }
        i += 1;
    }
    total
}

impl HoldingsProof {
    /// Decides whether the holdings of `cloud`, as `members` gives them, reach
    /// the threshold, and whether a member of the ring asked for the
    /// attestation.
    pub fn verify(&self, cloud: &ProbabilityCloud, members: &Vec<MemberBalance>) -> (verdict: Verdict)
        ensures
            verdict == holdings_verdict(cloud@, members@, self.proof_bytes@, self.threshold),
    {
        if self.proof_bytes.len() == 0 {
            return Verdict::Rejected(ErrorCode::InvalidProof);
        }
        let keys = cloud.ring_public_keys();
        if !members_list_ring(members, keys) {
            return Verdict::Rejected(ErrorCode::InvalidPublicInputs);
        }
        if self.threshold as u128 > total_holdings(members) {
            return Verdict::Rejected(ErrorCode::InvalidProof);
        }
        let statement = holdings_statement(cloud, self.threshold);
        if !ring_signature_closes(keys, statement.as_slice(), self.proof_bytes.as_slice()) {
            return Verdict::Rejected(ErrorCode::InvalidProof);
        }
        Verdict::Accepted
    }
}

} // verus!
