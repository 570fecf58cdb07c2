//! The operations of the registry: setting it up, creating a cloud,
//! authorising a transfer by a ring signature, and attesting that a ring's
//! holdings reach a threshold.

use crate::bytes::append;
use crate::bytes::bytes_eq;
use crate::cloud::CloudView;
use crate::cloud::HoldingsProofVerified;
use crate::cloud::ProbabilityCloud;
use crate::cloud::Registry;
use crate::cloud::MAX_RING_SIZE;
use crate::cloud::MIN_RING_SIZE;
use crate::error::ErrorCode;
use crate::holdings::holdings_verdict;
use crate::holdings::HoldingsProof;
use crate::holdings::MemberBalance;
use crate::primitives::system_transfer_instruction;
use crate::ring::closes;
use crate::ring::ring_verdict;
use crate::ring::RingProof;
use crate::ring::Verdict;
use crate::settlement::SettlementInstruction;
use crate::statement::domain_tag_of;
use crate::statement::transfer_statement_of;
use crate::statement::TRANSFER_PURPOSE;
use crate::statement::TRANSFER_STATEMENT_LEN;
use crate::storage::counted;
use crate::storage::Storage;
use crate::storage::StorageView;
use vstd::bytes::spec_u64_to_le_bytes;
use vstd::bytes::u64_to_le_bytes;
use vstd::prelude::*;
use vstd::slice::slice_subrange;

verus! {

/// Who sets the registry up.
#[derive(Clone, Copy, Debug)]
pub struct Initialize {
    pub authority: [u8; 32],
}

/// Who creates a cloud, and when.
#[derive(Clone, Copy, Debug)]
pub struct CreateCloud {
    pub authority: [u8; 32],
    pub unix_timestamp: i64,
}

/// The cloud on whose behalf a transfer is asked for, and its two parties.
#[derive(Clone, Copy, Debug)]
pub struct TransferWithRing<'a> {
    pub cloud: &'a ProbabilityCloud,
    pub sender: [u8; 32],
    pub recipient: [u8; 32],
}

/// The cloud whose holdings are to be attested, the balances that the ledger
/// keeps for its keys, and the time.
#[derive(Clone, Copy, Debug)]
pub struct ProveHoldings<'a> {
    pub cloud: &'a ProbabilityCloud,
    pub members: &'a Vec<MemberBalance>,
    pub unix_timestamp: i64,
}

/// Sets the registry up under the authority of `ctx`, with no cloud counted.
/// A registry that was set up before is left as it is.
pub fn initialize(storage: &mut Storage, ctx: &Initialize) -> (done: Result<(), ErrorCode>)
    ensures
        old(storage)@.registry is Some ==> done == Err::<(), ErrorCode>(
            ErrorCode::StorageCollision,
        ) && final(storage)@ == old(storage)@,
        old(storage)@.registry is None ==> done == Ok::<(), ErrorCode>(()) && final(storage)@
            == (StorageView {
            registry: Some(Registry { authority: ctx.authority, cloud_count: 0 }),
            clouds: old(storage)@.clouds,
        }),
{
    storage.create_registry(ctx.authority)
}

/// What `create_cloud` answers: a ring of more than twenty keys is refused
/// first, then one of fewer than two, then an address that is taken.
pub open spec fn create_cloud_decision(
    storage: StorageView,
    authority: [u8; 32],
    ring_size: nat,
    cloud_id: u64,
) -> Result<(), ErrorCode> {
    if ring_size > MAX_RING_SIZE {
        Err(ErrorCode::RingTooLarge)
    } else if ring_size < MIN_RING_SIZE {
        Err(ErrorCode::RingTooSmall)
    } else if storage.clouds.contains_key((authority, cloud_id)) {
        Err(ErrorCode::StorageCollision)
    } else {
        Ok(())
    }
}

/// The storage after `create_cloud`: a cloud that is accepted stands under
/// its address, with the ring as given and the time of `ctx`, and is counted
/// in the registry; one that is refused changes nothing.
pub open spec fn after_create_cloud(
    storage: StorageView,
    ctx: CreateCloud,
    ring_public_keys: Seq<[u8; 32]>,
    cloud_id: u64,
) -> StorageView {
    if create_cloud_decision(storage, ctx.authority, ring_public_keys.len(), cloud_id) is Ok {
        StorageView {
            registry: counted(storage.registry),
            clouds: storage.clouds.insert(
                (ctx.authority, cloud_id),
                CloudView {
                    authority: ctx.authority,
                    cloud_id,
                    ring_public_keys,
                    created_at: ctx.unix_timestamp,
                },
            ),
        }
    } else {
        storage
    }
}

/// Whatever cloud is asked for, every cloud that the storage holds stays as
/// it is, and the registry's count does not fall. A second cloud under an
/// address that is taken is refused, whatever its ring.
pub proof fn create_cloud_writes_over_nothing(
    storage: StorageView,
    ctx: CreateCloud,
    ring_public_keys: Seq<[u8; 32]>,
    cloud_id: u64,
    address: ([u8; 32], u64),
)
    requires
        storage.clouds.contains_key(address),
    ensures
        after_create_cloud(storage, ctx, ring_public_keys, cloud_id).clouds.contains_key(address),
        after_create_cloud(storage, ctx, ring_public_keys, cloud_id).clouds[address]
            == storage.clouds[address],
        address == (ctx.authority, cloud_id) ==> create_cloud_decision(
            storage,
            ctx.authority,
            ring_public_keys.len(),
            cloud_id,
        ) is Err,
        storage.registry matches Some(before) ==> after_create_cloud(
            storage,
            ctx,
            ring_public_keys,
            cloud_id,
        ).registry matches Some(after) && after.authority == before.authority && after.cloud_count
            >= before.cloud_count,
{
}

/// Of two clouds asked for under one address, the first is created and the
/// second refused, and the storage holds the first: its ring and its time.
pub proof fn first_cloud_under_an_address_stays(
    storage: StorageView,
    first: CreateCloud,
    first_keys: Seq<[u8; 32]>,
    second: CreateCloud,
    second_keys: Seq<[u8; 32]>,
    cloud_id: u64,
)
    requires
        first.authority == second.authority,
        MIN_RING_SIZE <= first_keys.len() <= MAX_RING_SIZE,
        !storage.clouds.contains_key((first.authority, cloud_id)),
    ensures
        create_cloud_decision(storage, first.authority, first_keys.len(), cloud_id) is Ok,
        create_cloud_decision(
            after_create_cloud(storage, first, first_keys, cloud_id),
            second.authority,
            second_keys.len(),
            cloud_id,
        ) is Err,
        after_create_cloud(
            after_create_cloud(storage, first, first_keys, cloud_id),
            second,
            second_keys,
            cloud_id,
        ) == after_create_cloud(storage, first, first_keys, cloud_id),
        after_create_cloud(storage, first, first_keys, cloud_id).clouds[(
            first.authority,
            cloud_id,
        )] == (CloudView {
            authority: first.authority,
            cloud_id,
            ring_public_keys: first_keys,
            created_at: first.unix_timestamp,
        }),
{
}

/// Creates the cloud of the authority of `ctx` with the identifier `cloud_id`
/// and the ring `ring_public_keys`, stamped with the time of `ctx`, and counts
/// it in the registry. Where the cloud is refused, nothing changes.
pub fn create_cloud(
    storage: &mut Storage,
    ctx: &CreateCloud,
    ring_public_keys: Vec<[u8; 32]>,
    cloud_id: u64,
) -> (done: Result<(), ErrorCode>)
    ensures
        done == create_cloud_decision(
            old(storage)@,
            ctx.authority,
            ring_public_keys@.len(),
            cloud_id,
        ),
        final(storage)@ == after_create_cloud(old(storage)@, *ctx, ring_public_keys@, cloud_id),
{
    match ProbabilityCloud::new(ctx.authority, cloud_id, ring_public_keys, ctx.unix_timestamp) {
        Ok(cloud) => storage.create_cloud(cloud),
        Err(refusal) => Err(refusal),
    }
}

/// Whether `public_inputs` has the length of a transfer's statement and
/// begins with `sender`, `recipient` and `amount`.
pub open spec fn states_transfer(
    public_inputs: Seq<u8>,
    sender: [u8; 32],
    recipient: [u8; 32],
    amount: u64,
) -> bool {
    &&& public_inputs.len() == TRANSFER_STATEMENT_LEN
    &&& public_inputs.subrange(0, 72) == sender@ + recipient@ + spec_u64_to_le_bytes(amount)
}

/// Whether a transfer is authorised: an empty proof is refused first, then
/// empty public inputs, then public inputs that state another transfer, then
/// whatever the ring signature verifier refuses.
pub open spec fn transfer_decision(
    cloud: CloudView,
    sender: [u8; 32],
    recipient: [u8; 32],
    amount: u64,
    proof: Seq<u8>,
    public_inputs: Seq<u8>,
) -> Result<(), ErrorCode> {
    if proof.len() == 0 {
        Err(ErrorCode::InvalidProof)
    } else if public_inputs.len() == 0 {
        Err(ErrorCode::InvalidPublicInputs)
    } else if !states_transfer(public_inputs, sender, recipient, amount) {
        Err(ErrorCode::InvalidPublicInputs)
    } else {
        match ring_verdict(cloud, proof, public_inputs) {
            Verdict::Accepted => Ok(()),
            Verdict::Rejected(reason) => Err(reason),
        }
    }
}

/// A transfer is authorised exactly when the public inputs are the statement
/// of this transfer for this cloud and the proof is a ring signature of them
/// under the cloud's ring.
pub proof fn transfer_authorised_exactly(
    cloud: CloudView,
    sender: [u8; 32],
    recipient: [u8; 32],
    amount: u64,
    proof: Seq<u8>,
    public_inputs: Seq<u8>,
)
    ensures
        transfer_decision(cloud, sender, recipient, amount, proof, public_inputs) is Ok <==> {
            &&& public_inputs == transfer_statement_of(
                sender,
                recipient,
                amount,
                domain_tag_of(TRANSFER_PURPOSE, cloud),
            )
            &&& public_inputs.len() == TRANSFER_STATEMENT_LEN
            &&& closes(cloud.ring_public_keys, public_inputs, proof)
        },
{
    vstd::bytes::lemma_auto_spec_u64_to_from_le_bytes();
    let tag = domain_tag_of(TRANSFER_PURPOSE, cloud);
    let head = sender@ + recipient@ + spec_u64_to_le_bytes(amount);
    let statement = transfer_statement_of(sender, recipient, amount, tag);
    assert(head.len() == 72);
    if transfer_decision(cloud, sender, recipient, amount, proof, public_inputs) is Ok {
        assert(public_inputs =~= public_inputs.subrange(0, 72) + public_inputs.subrange(72, 104));
        assert(statement =~= head + tag);
    }
    if public_inputs == statement && public_inputs.len() == TRANSFER_STATEMENT_LEN && closes(
        cloud.ring_public_keys,
        public_inputs,
        proof,
    ) {
        assert(statement =~= head + tag);
        assert(statement.subrange(0, 72) =~= head);
        assert(statement.subrange(72, 104) =~= tag);
    }
}

/// An empty proof is refused as an invalid proof, and empty public inputs that
/// come with a proof as invalid public inputs, whatever the cloud, the
/// parties, the amount or the balances: the answer rests on no key, digest or
/// signature.
pub proof fn empty_input_is_refused(
    cloud: CloudView,
    sender: [u8; 32],
    recipient: [u8; 32],
    amount: u64,
    members: Seq<MemberBalance>,
    threshold: u64,
    proof: Seq<u8>,
    public_inputs: Seq<u8>,
)
    ensures
        proof.len() == 0 ==> {
            &&& ring_verdict(cloud, proof, public_inputs) == Verdict::Rejected(
                ErrorCode::InvalidProof,
            )
            &&& transfer_decision(cloud, sender, recipient, amount, proof, public_inputs) == Err::<
                (),
                ErrorCode,
            >(ErrorCode::InvalidProof)
            &&& holdings_verdict(cloud, members, proof, threshold) == Verdict::Rejected(
                ErrorCode::InvalidProof,
            )
        },
        proof.len() > 0 && public_inputs.len() == 0 ==> {
            &&& ring_verdict(cloud, proof, public_inputs) == Verdict::Rejected(
                ErrorCode::InvalidPublicInputs,
            )
            &&& transfer_decision(cloud, sender, recipient, amount, proof, public_inputs) == Err::<
                (),
                ErrorCode,
            >(ErrorCode::InvalidPublicInputs)
        },
{
}

/// Verifies a request to transfer `amount` from the sender of `ctx` to its
/// recipient on behalf of its cloud. A request that is authorised goes on to
/// settlement: the answer is the instruction that settles it, the system
/// program's transfer of exactly `amount` between the two. A request that is
/// refused ends there, with the reason and nothing to settle.
pub fn transfer_with_ring_proof(
    ctx: &TransferWithRing,
    proof: Vec<u8>,
    public_inputs: Vec<u8>,
    amount: u64,
) -> (settlement: Result<SettlementInstruction, ErrorCode>)
    ensures
        match settlement {
            Ok(instruction) => transfer_decision(
                ctx.cloud@,
                ctx.sender,
                ctx.recipient,
                amount,
                proof@,
                public_inputs@,
            ) is Ok && instruction.is_system_transfer(ctx.sender, ctx.recipient, amount),
            Err(refusal) => transfer_decision(
                ctx.cloud@,
                ctx.sender,
                ctx.recipient,
                amount,
                proof@,
                public_inputs@,
            ) == Err::<(), ErrorCode>(refusal),
        },
{
    if proof.len() == 0 {
        return Err(ErrorCode::InvalidProof);
    }
    if public_inputs.len() == 0 {
        return Err(ErrorCode::InvalidPublicInputs);
    }
    if public_inputs.len() != TRANSFER_STATEMENT_LEN {
        return Err(ErrorCode::InvalidPublicInputs);
    }
    let mut request: Vec<u8> = Vec::new();
    append(&mut request, ctx.sender.as_slice());
    append(&mut request, ctx.recipient.as_slice());
    append(&mut request, u64_to_le_bytes(amount).as_slice());
    if !bytes_eq(slice_subrange(public_inputs.as_slice(), 0, 72), request.as_slice()) {
        return Err(ErrorCode::InvalidPublicInputs);
    }
    let ring_proof = RingProof { signature_bytes: proof, public_inputs };
    match ring_proof.verify(ctx.cloud) {
        Verdict::Accepted => Ok(system_transfer_instruction(&ctx.sender, &ctx.recipient, amount)),
        Verdict::Rejected(reason) => Err(reason),
    }
}

/// Attests that the holdings of the cloud of `ctx` reach `threshold`: the
/// attestation names the cloud, the threshold and the time of `ctx`. Where
/// the verifier refuses, there is no attestation.
pub fn prove_holdings(ctx: &ProveHoldings, proof: Vec<u8>, threshold: u64) -> (attested: Result<
    HoldingsProofVerified,
    ErrorCode,
>)
    ensures
        match holdings_verdict(ctx.cloud@, ctx.members@, proof@, threshold) {
            Verdict::Accepted => attested == Ok::<HoldingsProofVerified, ErrorCode>(
                HoldingsProofVerified {
                    cloud_id: ctx.cloud@.cloud_id,
                    threshold,
                    timestamp: ctx.unix_timestamp,
                },
            ),
            Verdict::Rejected(reason) => attested == Err::<HoldingsProofVerified, ErrorCode>(
                reason,
            ),
        },
{
    let holdings_proof = HoldingsProof { proof_bytes: proof, threshold };
    match holdings_proof.verify(ctx.cloud, ctx.members) {
        Verdict::Accepted => Ok(
            HoldingsProofVerified {
                cloud_id: ctx.cloud.cloud_id(),
                threshold,
                timestamp: ctx.unix_timestamp,
            },
        ),
        Verdict::Rejected(reason) => Err(reason),
    }
}

} // verus!
