//! The records of the registry: the registry itself, a ring of public keys
//! (a "probability cloud"), and the attestation that a holdings proof leaves.

use crate::error::ErrorCode;
use vstd::prelude::*;

verus! {

/// The smallest ring that hides anything.
pub const MIN_RING_SIZE: usize = 2;

/// The largest ring a cloud may hold.
pub const MAX_RING_SIZE: usize = 20;

/// The registry of one deployment: who administers it, and how many clouds
/// were created since it was set up.
#[derive(Clone, Copy, Debug, PartialEq, Eq)]
pub struct Registry {
    pub authority: [u8; 32],
    pub cloud_count: u64,
}

/// The attestation that a ring's holdings were shown to reach a threshold.
#[derive(Clone, Copy, Debug, PartialEq, Eq)]
pub struct HoldingsProofVerified {
    pub cloud_id: u64,
    pub threshold: u64,
    pub timestamp: i64,
}

/// A ring of public keys under one authority. A cloud never changes once it
/// is made: it holds between two and twenty keys, in the order given.
#[derive(Debug, PartialEq, Eq)]
pub struct ProbabilityCloud {
    authority: [u8; 32],
    cloud_id: u64,
    ring_size: u8,
    ring_public_keys: Vec<[u8; 32]>,
    created_at: i64,
}

/// What a cloud holds.
pub struct CloudView {
    pub authority: [u8; 32],
    pub cloud_id: u64,
    pub ring_public_keys: Seq<[u8; 32]>,
    pub created_at: i64,
}

impl CloudView {
    /// Whether the ring has a size that a cloud may have.
    pub open spec fn well_formed(self) -> bool {
        MIN_RING_SIZE <= self.ring_public_keys.len() <= MAX_RING_SIZE
    }

    /// The number of keys in the ring.
    pub open spec fn ring_size(self) -> nat {
        self.ring_public_keys.len()
    }
}

impl View for ProbabilityCloud {
    type V = CloudView;

    closed spec fn view(&self) -> CloudView {
        CloudView {
            authority: self.authority,
            cloud_id: self.cloud_id,
            ring_public_keys: self.ring_public_keys@,
            created_at: self.created_at,
        }
    }
}

impl ProbabilityCloud {
    #[verifier::type_invariant]
    spec fn ring_in_bounds(self) -> bool {
        &&& MIN_RING_SIZE <= self.ring_public_keys@.len() <= MAX_RING_SIZE
        &&& self.ring_size == self.ring_public_keys@.len()
    }

    /// Makes the cloud of `authority` with the identifier `cloud_id` and the
    /// ring `ring_public_keys`, stamped `created_at`. A ring of more than
    /// twenty keys, or of fewer than two, is refused.
    pub fn new(
        authority: [u8; 32],
        cloud_id: u64,
        ring_public_keys: Vec<[u8; 32]>,
        created_at: i64,
    ) -> (made: Result<ProbabilityCloud, ErrorCode>)
        ensures
            ring_public_keys@.len() > MAX_RING_SIZE ==> made == Err::<ProbabilityCloud, ErrorCode>(
                ErrorCode::RingTooLarge,
            ),
            ring_public_keys@.len() < MIN_RING_SIZE ==> made == Err::<ProbabilityCloud, ErrorCode>(
                ErrorCode::RingTooSmall,
            ),
            MIN_RING_SIZE <= ring_public_keys@.len() <= MAX_RING_SIZE ==> made is Ok && made->Ok_0@
                == (CloudView { authority, cloud_id, ring_public_keys: ring_public_keys@, created_at }),
    {
        let size = ring_public_keys.len();
        if size > MAX_RING_SIZE {
            return Err(ErrorCode::RingTooLarge);
        }
        if size < MIN_RING_SIZE {
            return Err(ErrorCode::RingTooSmall);
        }
        Ok(ProbabilityCloud { authority, cloud_id, ring_size: size as u8, ring_public_keys, created_at })
    }

    /// The key of the cloud's creator.
    pub fn authority(&self) -> (authority: [u8; 32])
        ensures
            authority == self@.authority,
    {
        self.authority
    }

    /// The identifier that the creator gave the cloud.
    pub fn cloud_id(&self) -> (cloud_id: u64)
        ensures
            cloud_id == self@.cloud_id,
    {
        self.cloud_id
    }

    /// The number of keys in the ring.
    pub fn ring_size(&self) -> (ring_size: u8)
        ensures
            ring_size == self@.ring_size(),
            self@.well_formed(),
    {
        proof {
            use_type_invariant(self);
        }
        self.ring_size
    }

    /// The ring, in the order in which it was given.
    pub fn ring_public_keys(&self) -> (keys: &Vec<[u8; 32]>)
        ensures
            keys@ == self@.ring_public_keys,
            self@.well_formed(),
    {
        proof {
            use_type_invariant(self);
        }
        &self.ring_public_keys
    }

    /// The time at which the cloud was made.
    pub fn created_at(&self) -> (created_at: i64)
        ensures
            created_at == self@.created_at,
    {
        self.created_at
    }
}

} // verus!
