//! The records that the registry keeps: one registry record, and the clouds,
//! each under the address made of its authority and its identifier. A record
//! is created where none is yet and never written over.

use crate::bytes::key_eq;
use crate::cloud::CloudView;
use crate::cloud::ProbabilityCloud;
use crate::cloud::Registry;
use crate::error::ErrorCode;
use vstd::prelude::*;

verus! {

/// The registry record, if there is one, and the clouds by address.
pub struct Storage {
    registry: Option<Registry>,
    clouds: Vec<ProbabilityCloud>,
}

/// What the storage holds.
pub struct StorageView {
    pub registry: Option<Registry>,
    pub clouds: Map<([u8; 32], u64), CloudView>,
}

/// The address under which a cloud is kept.
pub open spec fn address_of(cloud: CloudView) -> ([u8; 32], u64) {
    (cloud.authority, cloud.cloud_id)
}

/// The registry after one more cloud was created: its count is one higher,
/// unless it stands at the top of its range already.
pub open spec fn counted(registry: Option<Registry>) -> Option<Registry> {
    match registry {
        Some(r) => Some(
            Registry {
                authority: r.authority,
                cloud_count: if r.cloud_count < u64::MAX {
                    (r.cloud_count + 1) as u64
                } else {
                    u64::MAX
                },
            },
        ),
        None => None,
    }
}

spec fn holds_at(clouds: Seq<ProbabilityCloud>, i: int, address: ([u8; 32], u64)) -> bool {
    0 <= i < clouds.len() && address_of(clouds[i]@) == address
}

spec fn place_of(clouds: Seq<ProbabilityCloud>, address: ([u8; 32], u64)) -> int {
    choose|i: int| holds_at(clouds, i, address)
}

spec fn records(clouds: Seq<ProbabilityCloud>) -> Map<([u8; 32], u64), CloudView> {
    Map::new(
        |address: ([u8; 32], u64)| exists|i: int| holds_at(clouds, i, address),
        |address: ([u8; 32], u64)| clouds[place_of(clouds, address)]@,
    )
}

spec fn one_per_address(clouds: Seq<ProbabilityCloud>) -> bool {
    forall|i: int, j: int|
        0 <= i < j < clouds.len() ==> address_of(#[trigger] clouds[i]@) != address_of(
            #[trigger] clouds[j]@,
        )
}

proof fn place_is_unique(clouds: Seq<ProbabilityCloud>, i: int, address: ([u8; 32], u64))
    requires
        one_per_address(clouds),
        holds_at(clouds, i, address),
    ensures
        place_of(clouds, address) == i,
        records(clouds).contains_key(address),
        records(clouds)[address] == clouds[i]@,
{
    let j = place_of(clouds, address);
    assert(holds_at(clouds, j, address));
    if j < i {
        assert(address_of(clouds[j]@) != address_of(clouds[i]@));
    } else if i < j {
        assert(address_of(clouds[i]@) != address_of(clouds[j]@));
    }
}

proof fn records_after_push(clouds: Seq<ProbabilityCloud>, cloud: ProbabilityCloud)
    requires
        one_per_address(clouds),
        forall|i: int| !holds_at(clouds, i, address_of(cloud@)),
    ensures
        one_per_address(clouds.push(cloud)),
        records(clouds.push(cloud)) == records(clouds).insert(address_of(cloud@), cloud@),
{
    let after = clouds.push(cloud);
    let last = clouds.len() as int;
    assert forall|i: int, j: int| 0 <= i < j < after.len() implies address_of(
        #[trigger] after[i]@,
    ) != address_of(#[trigger] after[j]@) by {
        if j == last {
            assert(!holds_at(clouds, i, address_of(cloud@)));
        }
    }
    assert forall|address: ([u8; 32], u64)|
        records(after).contains_key(address) <==> records(clouds).insert(
            address_of(cloud@),
            cloud@,
        ).contains_key(address) by {
        if records(after).contains_key(address) {
            let i = place_of(after, address);
            assert(holds_at(after, i, address));
            if i < last {
                assert(holds_at(clouds, i, address));
            }
        }
        if records(clouds).contains_key(address) {
            let i = place_of(clouds, address);
            assert(holds_at(clouds, i, address));
            assert(holds_at(after, i, address));
        }
        if address == address_of(cloud@) {
            assert(holds_at(after, last, address));
        }
    }
    assert forall|address: ([u8; 32], u64)| records(after).contains_key(address) implies records(
        after,
    )[address] == records(clouds).insert(address_of(cloud@), cloud@)[address] by {
        let i = place_of(after, address);
        assert(holds_at(after, i, address));
        if i < last {
            assert(holds_at(clouds, i, address));
            place_is_unique(clouds, i, address);
        }
    }
    assert(records(after) =~= records(clouds).insert(address_of(cloud@), cloud@));
}

impl View for Storage {
    type V = StorageView;

    closed spec fn view(&self) -> StorageView {
        StorageView { registry: self.registry, clouds: records(self.clouds@) }
    }
}

impl Storage {
    #[verifier::type_invariant]
    spec fn one_record_per_address(self) -> bool {
        one_per_address(self.clouds@)
    }

    /// A storage that holds nothing.
    pub fn new() -> (storage: Storage)
        ensures
            storage@.registry is None,
            storage@.clouds == Map::<([u8; 32], u64), CloudView>::empty(),
    {
        let storage = Storage { registry: None, clouds: Vec::new() };
        assert(storage@.clouds =~= Map::<([u8; 32], u64), CloudView>::empty());
        storage
    }

    /// A storage that holds `registry` and no cloud.
    pub fn with_registry(registry: Registry) -> (storage: Storage)
        ensures
            storage@.registry == Some(registry),
            storage@.clouds == Map::<([u8; 32], u64), CloudView>::empty(),
    {
        let storage = Storage { registry: Some(registry), clouds: Vec::new() };
        assert(storage@.clouds =~= Map::<([u8; 32], u64), CloudView>::empty());
        storage
    }

    /// The registry record, if the registry was set up.
    pub fn registry(&self) -> (registry: Option<Registry>)
        ensures
            registry == self@.registry,
    {
        self.registry
    }

    fn find(&self, authority: &[u8; 32], cloud_id: u64) -> (place: Option<usize>)
        ensures
            match place {
                Some(i) => holds_at(self.clouds@, i as int, (*authority, cloud_id)),
                None => forall|i: int| !holds_at(self.clouds@, i, (*authority, cloud_id)),
            },
    {
        let mut i: usize = 0;
        while i < self.clouds.len()
            invariant
                i <= self.clouds@.len(),
                forall|j: int| 0 <= j < i ==> !holds_at(self.clouds@, j, (*authority, cloud_id)),
            decreases self.clouds@.len() - i,
        {
            let cloud = &self.clouds[i];
            if cloud.cloud_id() == cloud_id && key_eq(&cloud.authority(), authority) {
                return Some(i);
            }
            i += 1;
        }
        None
    }

    /// The cloud of `authority` with the identifier `cloud_id`, if there is
    /// one.
    pub fn cloud(&self, authority: &[u8; 32], cloud_id: u64) -> (found: Option<&ProbabilityCloud>)
        ensures
            match found {
                Some(cloud) => self@.clouds.contains_key((*authority, cloud_id)) && cloud@
                    == self@.clouds[(*authority, cloud_id)],
                None => !self@.clouds.contains_key((*authority, cloud_id)),
            },
    {
        match self.find(authority, cloud_id) {
            Some(i) => {
                proof {
                    use_type_invariant(self);
                    place_is_unique(self.clouds@, i as int, (*authority, cloud_id));
                }
                Some(&self.clouds[i])
            },
            None => None,
        }
    }

    /// Creates the registry record with `authority` as its administrator and
    /// no cloud counted, unless there is one already.
    pub fn create_registry(&mut self, authority: [u8; 32]) -> (created: Result<(), ErrorCode>)
        ensures
            old(self)@.registry is Some ==> created == Err::<(), ErrorCode>(
                ErrorCode::StorageCollision,
            ) && final(self)@ == old(self)@,
            old(self)@.registry is None ==> created == Ok::<(), ErrorCode>(()) && final(self)@
                == (StorageView {
                registry: Some(Registry { authority, cloud_count: 0 }),
                clouds: old(self)@.clouds,
            }),
    {
        proof {
            use_type_invariant(&*self);
        }
        if self.registry.is_some() {
            return Err(ErrorCode::StorageCollision);
        }
        self.registry = Some(Registry { authority, cloud_count: 0 });
        Ok(())
    }

    /// Keeps `cloud` under its address and counts it in the registry record,
    /// unless the address is taken.
    pub fn create_cloud(&mut self, cloud: ProbabilityCloud) -> (created: Result<(), ErrorCode>)
        ensures
            old(self)@.clouds.contains_key(address_of(cloud@)) ==> created == Err::<(), ErrorCode>(
                ErrorCode::StorageCollision,
            ) && final(self)@ == old(self)@,
            !old(self)@.clouds.contains_key(address_of(cloud@)) ==> created == Ok::<(), ErrorCode>(
                (),
            ) && final(self)@ == (StorageView {
                registry: counted(old(self)@.registry),
                clouds: old(self)@.clouds.insert(address_of(cloud@), cloud@),
            }),
    {
        let authority = cloud.authority();
        let cloud_id = cloud.cloud_id();
        proof {
            use_type_invariant(&*self);
        }
        match self.find(&authority, cloud_id) {
            Some(i) => {
                proof {
                    place_is_unique(self.clouds@, i as int, address_of(cloud@));
                }
                Err(ErrorCode::StorageCollision)
            },
            None => {
                proof {
                    records_after_push(self.clouds@, cloud);
                }
                let mut clouds: Vec<ProbabilityCloud> = Vec::new();
                core::mem::swap(&mut self.clouds, &mut clouds);
                clouds.push(cloud);
                core::mem::swap(&mut self.clouds, &mut clouds);
                match self.registry {
                    Some(r) => {
                        let cloud_count = if r.cloud_count < u64::MAX {
                            r.cloud_count + 1
                        } else {
                            u64::MAX
                        };
                        self.registry = Some(Registry { authority: r.authority, cloud_count });
                    },
                    None => {},
                }
                Ok(())
            },
        }
    }
}

} // verus!
