//! The device buffer cache: maps resource identifiers to device buffer
//! handles, creating each buffer lazily on first use and reusing it
//! thereafter without re-uploading.

use vstd::prelude::*;
use std::collections::HashMap;
use crate::attribute::{packed_bytes, AttributeF32, encode_words};
use crate::resource::{ResourceId, ResourcePools};

verus! {

broadcast use vstd::std_specs::hash::group_hash_axioms;

#[verifier::external_type_specification]
#[verifier::external_body]
pub struct ExDevice(wgpu::Device);

#[verifier::external_type_specification]
#[verifier::external_body]
pub struct ExBuffer(wgpu::Buffer);

/// Relies on wgpu's `DeviceExt::create_buffer_init`: allocates a device
/// buffer tagged for vertex-attribute use, uploads `contents` into it, and
/// returns the handle. The handle is opaque to this crate; nothing is claimed
/// of it.
#[verifier::external_body]
fn create_buffer(device: &wgpu::Device, contents: &Vec<u8>) -> wgpu::Buffer {
    wgpu::util::DeviceExt::create_buffer_init(
        device,
        &wgpu::util::BufferInitDescriptor {
            label: None,
            contents: contents.as_slice(),
            usage: wgpu::BufferUsages::VERTEX,
        },
    )
}

/// One materialization request as a transition on the cache's uploaded-bytes
/// map: a hit leaves the cache unchanged, a miss with CPU-side data inserts
/// the packed byte layout of that data, and a miss without data is a no-op.
pub open spec fn materialize_step(
    cache: Map<u64, Seq<u8>>,
    pool: Map<u64, Seq<u32>>,
    id: u64,
) -> Map<u64, Seq<u8>> {
    if cache.contains_key(id) {
        cache
    } else if pool.contains_key(id) {
        cache.insert(id, packed_bytes(pool[id]))
    } else {
        cache
    }
}

/// The device buffer cache. `attributes` holds the buffer handle cached for
/// each identifier; the ghost map `uploaded` records, for the same
/// identifiers, the exact bytes that were handed to the device when each
/// buffer was created.
pub struct WGPUAttributes {
    attributes: HashMap<u64, wgpu::Buffer>,
    uploaded: Ghost<Map<u64, Seq<u8>>>,
}

impl WGPUAttributes {
    /// The device buffer handle cached for each identifier.
    pub closed spec fn handles(self) -> Map<u64, wgpu::Buffer> {
        self.attributes@
    }

    /// The bytes each cached buffer was created from.
    pub closed spec fn uploaded_bytes(self) -> Map<u64, Seq<u8>> {
        self.uploaded@
    }

    /// The cache is well formed when the byte record covers exactly the
    /// cached identifiers.
    pub closed spec fn wf(self) -> bool {
        self.uploaded@.dom() == self.attributes@.dom()
    }

    /// An empty cache.
    pub fn new() -> (r: Self)
        ensures
            r.wf(),
            r.handles() == Map::<u64, wgpu::Buffer>::empty(),
            r.uploaded_bytes() == Map::<u64, Seq<u8>>::empty(),
    {
        WGPUAttributes { attributes: HashMap::new(), uploaded: Ghost(Map::empty()) }
    }

    /// Looks the cached handle up by identifier: a pure lookup with no side
    /// effects, `None` exactly when the identifier was never materialized.
    pub fn borrow<T>(&self, attribute: &ResourceId<T>) -> (r: Option<&wgpu::Buffer>)
        ensures
            r is Some <==> self.handles().contains_key(attribute.id),
            r matches Some(b) ==> *b == self.handles()[attribute.id],
    {
        self.attributes.get(&attribute.id)
    }

    /// Ensures the 32-bit-float attribute named by `attribute_rid` is
    /// materialized: on a cache hit nothing happens; on a miss the CPU-side
    /// data is looked up in the pool, serialized into its packed device byte
    /// layout, uploaded into a freshly created device buffer, and the handle
    /// is cached under the identifier; on a miss with no CPU-side entry the
    /// call is a silent no-op.
    pub fn update_f32<T>(
        &mut self,
        device: &wgpu::Device,
        pools: &ResourcePools,
        attribute_rid: &ResourceId<AttributeF32>,
    )
        requires
            old(self).wf(),
        ensures
            final(self).wf(),
            final(self).uploaded_bytes() == materialize_step(
                old(self).uploaded_bytes(),
                pools@,
                attribute_rid.id,
            ),
            old(self).handles().contains_key(attribute_rid.id) ==> final(self).handles() == old(
                self,
            ).handles(),
            !old(self).handles().contains_key(attribute_rid.id) && !pools@.contains_key(
                attribute_rid.id,
            ) ==> final(self).handles() == old(self).handles(),
            !old(self).handles().contains_key(attribute_rid.id) && pools@.contains_key(
                attribute_rid.id,
            ) ==> (exists|b: wgpu::Buffer|
                final(self).handles() == old(self).handles().insert(attribute_rid.id, b)),
    {
        if !self.attributes.contains_key(&attribute_rid.id) {
            if let Some(attribute) = pools.borrow_f32().borrow(attribute_rid) {
                let bytes = encode_words(attribute.borrow_data());
                let buffer = create_buffer(device, &bytes);
                self.uploaded = Ghost(self.uploaded@.insert(attribute_rid.id, bytes@));
                self.attributes.insert(attribute_rid.id, buffer);
                proof {
                    assert(self.uploaded@.dom() =~= self.attributes@.dom());
                    assert(self.attributes@ == old(self).handles().insert(
                        attribute_rid.id,
                        buffer,
                    ));
                }
            }
        }
    }
}

} // verus!
