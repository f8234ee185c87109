use gpu_buffer_cache::attribute::{encode_words, AttributeF32};
use gpu_buffer_cache::resource::{ResourceId, ResourcePools};
use gpu_buffer_cache::wgpu_attributes::WGPUAttributes;

/// A real wgpu device on the noop backend, which stubs out rendering but
/// performs buffer creation, so the cache can be exercised end to end.
fn noop_device() -> wgpu::Device {
    let instance = wgpu::Instance::new(wgpu::InstanceDescriptor {
        backends: wgpu::Backends::NOOP,
        backend_options: wgpu::BackendOptions {
            noop: wgpu::NoopBackendOptions {
                enable: true,
                ..Default::default()
            },
            ..Default::default()
        },
        ..wgpu::InstanceDescriptor::new_without_display_handle()
    });
    let adapter = pollster::block_on(
        instance.request_adapter(&wgpu::RequestAdapterOptions::default()),
    )
    .expect("the noop adapter should be available");
    let (device, _queue) = pollster::block_on(
        adapter.request_device(&wgpu::DeviceDescriptor::default()),
    )
    .expect("the noop device should be available");
    device
}

fn bits(values: &[f32]) -> Vec<u32> {
    values.iter().map(|v| v.to_bits()).collect()
}

#[test]
fn packed_layout_of_three_floats() {
    let out = encode_words(&bits(&[1.0, 2.5, -3.0]));
    let expected: Vec<u8> = vec![
        0x00, 0x00, 0x80, 0x3f, // 1.0
        0x00, 0x00, 0x20, 0x40, // 2.5
        0x00, 0x00, 0x40, 0xc0, // -3.0
    ];
    assert_eq!(out.len(), 12);
    assert_eq!(out, expected);
}

#[test]
fn packed_layout_matches_native_scalar_bytes() {
    let values = [0.0f32, 1.0, -2.75, 1234.5e-3, f32::MAX];
    let out = encode_words(&bits(&values));
    let mut expected: Vec<u8> = Vec::new();
    for v in values {
        expected.extend_from_slice(&v.to_ne_bytes());
    }
    assert_eq!(out, expected);
}

#[test]
fn packed_layout_of_no_scalars_is_empty() {
    let out = encode_words(&bits(&[]));
    assert!(out.is_empty());
}

#[test]
fn store_lookup_finds_what_was_inserted() {
    let mut pools = ResourcePools::new();
    let rid: ResourceId<AttributeF32> = ResourceId::new(3);
    pools.insert_f32(&rid, AttributeF32::new(bits(&[4.0, 5.0])));
    let found = pools.borrow_f32().borrow(&rid);
    assert!(found.is_some());
    assert_eq!(found.unwrap().borrow_data(), &bits(&[4.0, 5.0]));
    let other: ResourceId<AttributeF32> = ResourceId::new(4);
    assert!(pools.borrow_f32().borrow(&other).is_none());
}

#[test]
fn materialize_then_borrow_yields_a_twelve_byte_buffer() {
    let device = noop_device();
    let mut pools = ResourcePools::new();
    let i1: ResourceId<AttributeF32> = ResourceId::new(1);
    pools.insert_f32(&i1, AttributeF32::new(bits(&[0.0, 1.0, 2.0])));
    let mut cache = WGPUAttributes::new();
    assert!(cache.borrow(&i1).is_none());
    cache.update_f32::<AttributeF32>(&device, &pools, &i1);
    let buffer = cache.borrow(&i1);
    assert!(buffer.is_some());
    assert_eq!(buffer.unwrap().size(), 12);
}

#[test]
fn materialize_of_unknown_identifier_is_a_noop() {
    let device = noop_device();
    let pools = ResourcePools::new();
    let i2: ResourceId<AttributeF32> = ResourceId::new(2);
    let mut cache = WGPUAttributes::new();
    cache.update_f32::<AttributeF32>(&device, &pools, &i2);
    assert!(cache.borrow(&i2).is_none());
}

#[test]
fn repeated_materialization_keeps_the_single_entry() {
    let device = noop_device();
    let mut pools = ResourcePools::new();
    let i1: ResourceId<AttributeF32> = ResourceId::new(1);
    pools.insert_f32(&i1, AttributeF32::new(bits(&[0.0, 1.0, 2.0])));
    let mut cache = WGPUAttributes::new();
    cache.update_f32::<AttributeF32>(&device, &pools, &i1);
    cache.update_f32::<AttributeF32>(&device, &pools, &i1);
    let buffer = cache.borrow(&i1);
    assert!(buffer.is_some());
    assert_eq!(buffer.unwrap().size(), 12);
}

#[test]
fn stale_entry_survives_mutation_of_the_source() {
    let device = noop_device();
    let mut pools = ResourcePools::new();
    let i1: ResourceId<AttributeF32> = ResourceId::new(1);
    pools.insert_f32(&i1, AttributeF32::new(bits(&[0.0, 1.0, 2.0])));
    let mut cache = WGPUAttributes::new();
    cache.update_f32::<AttributeF32>(&device, &pools, &i1);
    // Mutate the CPU-side data: four scalars now, sixteen bytes.
    pools.insert_f32(&i1, AttributeF32::new(bits(&[9.0, 8.0, 7.0, 6.0])));
    cache.update_f32::<AttributeF32>(&device, &pools, &i1);
    // The cache holds the original buffer: the mutation is not picked up.
    let buffer = cache.borrow(&i1);
    assert!(buffer.is_some());
    assert_eq!(buffer.unwrap().size(), 12);
}

#[test]
fn materialize_of_an_empty_attribute_yields_an_empty_buffer() {
    let device = noop_device();
    let mut pools = ResourcePools::new();
    let rid: ResourceId<AttributeF32> = ResourceId::new(5);
    pools.insert_f32(&rid, AttributeF32::new(Vec::new()));
    let mut cache = WGPUAttributes::new();
    cache.update_f32::<AttributeF32>(&device, &pools, &rid);
    let buffer = cache.borrow(&rid);
    assert!(buffer.is_some());
    assert_eq!(buffer.unwrap().size(), 0);
}
