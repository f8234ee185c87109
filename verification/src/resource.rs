//! CPU-side resource addressing: typed identifiers, the attribute store, and
//! the pool that aggregates one store per element type.

use vstd::prelude::*;
use std::collections::HashMap;
use std::marker::PhantomData;
use crate::attribute::AttributeF32;

verus! {

broadcast use vstd::std_specs::hash::group_hash_axioms;

/// An opaque token naming one logical CPU-side resource. The unique value
/// `id` is minted by the resource pool; the phantom parameter `T` routes the
/// identifier to the store of its element type at compile time and carries no
/// information at runtime.
#[verifier::reject_recursive_types(T)]
pub struct ResourceId<T> {
    pub id: u64,
    pub marker: PhantomData<T>,
}

impl<T> ResourceId<T> {
    /// Tags a unique value as an identifier for element type `T`.
    pub fn new(id: u64) -> (r: Self)
        ensures
            r.id == id,
    {
        ResourceId { id, marker: PhantomData }
    }
}

/// The store of all 32-bit-float attributes, addressed by identifier.
/// Its view is the contents of each stored attribute, keyed by the
/// identifier's unique value.
pub struct AttributeStoreF32 {
    items: HashMap<u64, AttributeF32>,
}

impl View for AttributeStoreF32 {
    type V = Map<u64, Seq<u32>>;

    closed spec fn view(&self) -> Map<u64, Seq<u32>> {
        self.items@.map_values(|a: AttributeF32| a@)
    }
}

impl AttributeStoreF32 {
    /// An empty store.
    pub fn new() -> (r: Self)
        ensures
            r@ == Map::<u64, Seq<u32>>::empty(),
    {
        let items: HashMap<u64, AttributeF32> = HashMap::new();
        let r = AttributeStoreF32 { items };
        proof {
            assert(r@ =~= Map::<u64, Seq<u32>>::empty());
        }
        r
    }

    /// Stores an attribute under an identifier, replacing any previous entry.
    pub fn insert(&mut self, rid: &ResourceId<AttributeF32>, attribute: AttributeF32)
        ensures
            final(self)@ == old(self)@.insert(rid.id, attribute@),
    {
        self.items.insert(rid.id, attribute);
        proof {
            assert(self@ =~= old(self)@.insert(rid.id, attribute@));
        }
    }

    /// Looks an attribute up by identifier; `None` when the identifier has no
    /// entry in this store.
    pub fn borrow(&self, rid: &ResourceId<AttributeF32>) -> (r: Option<&AttributeF32>)
        ensures
            r is Some <==> self@.contains_key(rid.id),
            r matches Some(a) ==> a@ == self@[rid.id],
    {
        let r = self.items.get(&rid.id);
        proof {
            assert(self.items@.contains_key(rid.id) == self@.contains_key(rid.id));
        }
        r
    }
}

/// The aggregate of the CPU-side attribute stores, one per supported element
/// type. Its view is the map held by the 32-bit-float store, the one element
/// type with a materialization path.
pub struct ResourcePools {
    f32_attributes: AttributeStoreF32,
}

impl View for ResourcePools {
    type V = Map<u64, Seq<u32>>;

    closed spec fn view(&self) -> Map<u64, Seq<u32>> {
        self.f32_attributes@
    }
}

impl ResourcePools {
    /// A pool whose stores are all empty.
    pub fn new() -> (r: Self)
        ensures
            r@ == Map::<u64, Seq<u32>>::empty(),
    {
        ResourcePools { f32_attributes: AttributeStoreF32::new() }
    }

    /// Borrows the store for 32-bit-float attributes.
    pub fn borrow_f32(&self) -> (r: &AttributeStoreF32)
        ensures
            r@ == self@,
    {
        &self.f32_attributes
    }

    /// Stores a 32-bit-float attribute under an identifier, replacing any
    /// previous entry.
    pub fn insert_f32(&mut self, rid: &ResourceId<AttributeF32>, attribute: AttributeF32)
        ensures
            final(self)@ == old(self)@.insert(rid.id, attribute@),
    {
        self.f32_attributes.insert(rid, attribute);
    }
}

} // verus!
