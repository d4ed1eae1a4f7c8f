//! Graphics resources: devices, texture descriptors, textures, heaps and
//! command encoders, modelled as the plain state their accessors read.

use vstd::prelude::*;

pub mod command_encoder;
pub mod heap;
pub mod texture;

pub use texture::Compression;
pub use texture::Desc as TextureDesc;
pub use texture::Swizzle;
pub use texture::SwizzleChannels;
pub use texture::Texture;
pub use texture::Type as TextureType;
pub use texture::Usage;

verus! {

/// A pixel layout a texture can be asked for.
#[derive(Clone, Copy, Debug, PartialEq, Eq, Structural)]
pub enum PixelFormat {
    Invalid,
    A8UNorm,
    R8UNorm,
    Rgba8UNorm,
    Bgra8UNorm,
}

impl PixelFormat {
    /// The numeric code of the format in the native enumeration.
    pub fn raw_value(&self) -> (r: u64)
        ensures
            r == match *self {
                PixelFormat::Invalid => 0u64,
                PixelFormat::A8UNorm => 1u64,
                PixelFormat::R8UNorm => 10u64,
                PixelFormat::Rgba8UNorm => 70u64,
                PixelFormat::Bgra8UNorm => 80u64,
            },
    {
        match self {
            PixelFormat::Invalid => 0,
            PixelFormat::A8UNorm => 1,
            PixelFormat::R8UNorm => 10,
            PixelFormat::Rgba8UNorm => 70,
            PixelFormat::Bgra8UNorm => 80,
        }
    }
}

/// Where a resource's memory lives and who keeps it coherent.
#[derive(Clone, Copy, Debug, PartialEq, Eq, Structural)]
pub enum StorageMode {
    Shared,
    Managed,
    Private,
    Memoryless,
}

/// How processor writes to a resource are cached.
#[derive(Clone, Copy, Debug, PartialEq, Eq, Structural)]
pub enum CpuCacheMode {
    DefaultCache,
    WriteCombined,
}

/// Whether the device follows hazards on a resource itself.
#[derive(Clone, Copy, Debug, PartialEq, Eq, Structural)]
pub enum HazardTrackingMode {
    Default,
    Untracked,
    Traced,
}

/// The packed resource options: storage, cache and hazard tracking modes.
#[derive(Clone, Copy, Debug, PartialEq, Eq, Structural)]
pub struct ResourceOptions(pub u64);

impl ResourceOptions {
    /// The default options: shared storage, default cache, default
    /// tracking, all packed as zero.
    pub fn standard() -> (r: ResourceOptions)
        ensures
            r.0 == 0,
    {
        ResourceOptions(0)
    }
}

/// A buffer of device memory.
#[derive(Clone, Copy, Debug, PartialEq, Eq, Structural)]
pub struct Buffer {
    pub length: usize,
}

impl Buffer {
    /// The byte length the buffer was allocated with.
    pub fn length(&self) -> (r: usize)
        ensures
            r == self.length,
    {
        self.length
    }
}

/// A graphics device.
pub struct Device {
    pub registry_id: u64,
}

impl Device {
    /// The system's default device.  The model always has one.
    pub fn default() -> (r: Option<Device>)
        ensures
            r matches Some(d) && d.registry_id == 1,
    {
        Some(Device { registry_id: 1 })
    }

    /// A texture allocated from a descriptor: the descriptor must name at
    /// least one texel in each dimension, and the texture then carries the
    /// descriptor's type, format and sizes, stands on no parent and no
    /// surface.
    pub fn new_texture(&self, desc: &texture::Desc) -> (r: Option<Texture>)
        ensures
            r is Some <==> desc.spec_valid(),
            r matches Some(t) ==> t == texture::spec_texture_of(*desc),
    {
        if desc.width == 0 || desc.height == 0 || desc.depth == 0 {
            return None;
        }
        Some(
            Texture {
                texture_type: desc.texture_type,
                pixel_format: desc.pixel_format,
                width: desc.width,
                height: desc.height,
                depth: desc.depth,
                parent: None,
                io_surf_plane: 0,
            },
        )
    }

    /// A heap allocated from a descriptor, spanning exactly the asked
    /// size.
    pub fn new_heap_with_descriptor(&self, desc: &heap::Descriptor) -> (r: Option<heap::Heap>)
        ensures
            r matches Some(h) && h.size == desc.size && h.storage_mode == desc.storage_mode,
    {
        Some(heap::Heap { size: desc.size, storage_mode: desc.storage_mode })
    }
}

} // verus!
