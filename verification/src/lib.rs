//! A GPU-resident buffer cache: CPU-side vertex attribute data, addressed by
//! opaque identifiers, is turned into device buffers lazily on first use and
//! the resulting handles are reused thereafter without re-uploading.

pub mod attribute;
pub mod laws;
pub mod resource;
pub mod wgpu_attributes;
