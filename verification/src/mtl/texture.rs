//! Texture descriptors and textures: the descriptor is the plain record
//! the factory calls fill in, with the documented defaults pinned exactly.

use vstd::prelude::*;

use crate::mtl::{CpuCacheMode, HazardTrackingMode, PixelFormat, ResourceOptions, StorageMode};
use crate::ns::Number;

verus! {

/// The dimensionality of a texture.
#[derive(Clone, Copy, Debug, PartialEq, Eq, Structural)]
pub enum Type {
    D1,
    D1Array,
    D2,
    D2Array,
    D2Multisample,
    Cube,
    CubeArray,
    D3,
    D2MultisampleArray,
    TextureBuffer,
}

/// What one colour channel of a view reads.
#[derive(Clone, Copy, Debug, PartialEq, Eq, Structural)]
pub enum Swizzle {
    Zero,
    One,
    Red,
    Green,
    Blue,
    Alpha,
}

/// The per-channel read mapping of a texture.
#[derive(Clone, Copy, Debug, PartialEq, Eq, Structural)]
pub struct SwizzleChannels {
    pub red: Swizzle,
    pub green: Swizzle,
    pub blue: Swizzle,
    pub alpha: Swizzle,
}

impl Default for SwizzleChannels {
    /// The identity mapping: every channel reads itself.
    fn default() -> (r: SwizzleChannels)
        ensures
            r == (SwizzleChannels {
                red: Swizzle::Red,
                green: Swizzle::Green,
                blue: Swizzle::Blue,
                alpha: Swizzle::Alpha,
            }),
    {
        SwizzleChannels {
            red: Swizzle::Red,
            green: Swizzle::Green,
            blue: Swizzle::Blue,
            alpha: Swizzle::Alpha,
        }
    }
}

/// What a texture may be used for, as a bit set.
#[derive(Clone, Copy, Debug, PartialEq, Eq, Structural)]
pub struct Usage(pub usize);

impl Usage {
    /// No declared use.
    pub fn unknown() -> (r: Usage)
        ensures
            r.0 == 0,
    {
        Usage(0)
    }

    /// Shaders may read the texture.
    pub fn shader_read() -> (r: Usage)
        ensures
            r.0 == 1,
    {
        Usage(1)
    }

    /// Shaders may write the texture.
    pub fn shader_write() -> (r: Usage)
        ensures
            r.0 == 2,
    {
        Usage(2)
    }

    /// The texture may be a render target.
    pub fn render_target() -> (r: Usage)
        ensures
            r.0 == 4,
    {
        Usage(4)
    }

    /// Views with another pixel format may be made of the texture.
    pub fn pixel_format_view() -> (r: Usage)
        ensures
            r.0 == 0x10,
    {
        Usage(0x10)
    }

    /// The bit set boxed as a number, for composition dictionaries.
    pub fn to_cf_number(&self) -> (r: Number)
        ensures
            r.value == self.0 as i64,
    {
        Number::with_i64(self.0 as i64)
    }
}

/// How texture memory may be compressed.
#[derive(Clone, Copy, Debug, PartialEq, Eq, Structural)]
pub enum Compression {
    Lossless,
    Lossy,
}

/// What a texture is allocated from: its type, format, sizes and modes.
#[derive(Clone, Copy, Debug, PartialEq, Eq, Structural)]
pub struct Desc {
    pub texture_type: Type,
    pub pixel_format: PixelFormat,
    pub width: usize,
    pub height: usize,
    pub depth: usize,
    pub mipmap_level_count: usize,
    pub sample_count: usize,
    pub array_len: usize,
    pub resource_options: ResourceOptions,
    pub cpu_cache_mode: CpuCacheMode,
    pub storage_mode: StorageMode,
    pub hazard_tracking_mode: HazardTrackingMode,
    pub usage: Usage,
    pub allow_gpu_optimized_contents: bool,
    pub compression_type: Compression,
    pub swizzle: SwizzleChannels,
}

/// The number of mipmap levels of a full chain over the given extent:
/// the floor of the base-two logarithm, plus one for the base level.
pub open spec fn full_mipmap_levels(n: nat) -> nat
    decreases n,
{
    if n < 2 {
        1
    } else {
        1 + full_mipmap_levels(n / 2)
    }
}

proof fn lemma_full_mipmap_levels_le(n: nat)
    requires
        n >= 1,
    ensures
        full_mipmap_levels(n) <= n,
    decreases n,
{
    if n >= 2 {
        lemma_full_mipmap_levels_le(n / 2);
    }
}

fn full_mipmap_levels_exec(n: usize) -> (r: usize)
    ensures
        r == full_mipmap_levels(n as nat),
    decreases n,
{
    if n < 2 {
        1
    } else {
        proof {
            lemma_full_mipmap_levels_le((n / 2) as nat);
        }
        let sub = full_mipmap_levels_exec(n / 2);
        1 + sub
    }
}

/// The larger of two sizes.
pub open spec fn max_usize(a: usize, b: usize) -> usize {
    if a >= b {
        a
    } else {
        b
    }
}

/// The descriptor the two-dimensional factory fills in: the asked format
/// and extent, depth one, one sample and one slice, a full mipmap chain
/// when asked for and a single level otherwise, and the documented
/// defaults everywhere else.
pub open spec fn spec_new_2d(
    pixel_format: PixelFormat,
    width: usize,
    height: usize,
    mipmapped: bool,
) -> Desc {
    Desc {
        texture_type: Type::D2,
        pixel_format,
        width,
        height,
        depth: 1,
        mipmap_level_count: if mipmapped {
            full_mipmap_levels(max_usize(width, height) as nat) as usize
        } else {
            1
        },
        sample_count: 1,
        array_len: 1,
        resource_options: ResourceOptions(0),
        cpu_cache_mode: CpuCacheMode::DefaultCache,
        storage_mode: StorageMode::Managed,
        hazard_tracking_mode: HazardTrackingMode::Default,
        usage: Usage(1),
        allow_gpu_optimized_contents: true,
        compression_type: Compression::Lossless,
        swizzle: SwizzleChannels {
            red: Swizzle::Red,
            green: Swizzle::Green,
            blue: Swizzle::Blue,
            alpha: Swizzle::Alpha,
        },
    }
}

impl Desc {
    /// A descriptor names an allocatable texture when each dimension holds
    /// at least one texel.
    pub open spec fn spec_valid(self) -> bool {
        self.width >= 1 && self.height >= 1 && self.depth >= 1
    }

    /// A descriptor of a two-dimensional texture of the given format and
    /// extent, with a full mipmap chain when asked for.
    pub fn new_2d_with_pixel_format(
        pixel_format: PixelFormat,
        width: usize,
        height: usize,
        mipmapped: bool,
    ) -> (r: Desc)
        ensures
            r == spec_new_2d(pixel_format, width, height, mipmapped),
    {
        let levels: usize = if mipmapped {
            let m = if width >= height {
                width
            } else {
                height
            };
            full_mipmap_levels_exec(m)
        } else {
            1
        };
        Desc {
            texture_type: Type::D2,
            pixel_format,
            width,
            height,
            depth: 1,
            mipmap_level_count: levels,
            sample_count: 1,
            array_len: 1,
            resource_options: ResourceOptions(0),
            cpu_cache_mode: CpuCacheMode::DefaultCache,
            storage_mode: StorageMode::Managed,
            hazard_tracking_mode: HazardTrackingMode::Default,
            usage: Usage(1),
            allow_gpu_optimized_contents: true,
            compression_type: Compression::Lossless,
            swizzle: SwizzleChannels {
                red: Swizzle::Red,
                green: Swizzle::Green,
                blue: Swizzle::Blue,
                alpha: Swizzle::Alpha,
            },
        }
    }

    /// A descriptor of a cube texture whose six faces are squares of the
    /// given size.
    pub fn new_cube_with_pixel_format(pixel_format: PixelFormat, size: usize, mipmapped: bool) -> (r:
        Desc)
        ensures
            r == (Desc {
                texture_type: Type::Cube,
                ..spec_new_2d(pixel_format, size, size, mipmapped)
            }),
    {
        let mut d = Desc::new_2d_with_pixel_format(pixel_format, size, size, mipmapped);
        d.texture_type = Type::Cube;
        d
    }

    /// A descriptor of a two-dimensional texture one row high, with the
    /// asked resource options and usage.
    pub fn new_2d_with_resource_options(
        pixel_format: PixelFormat,
        width: usize,
        resource_options: ResourceOptions,
        usage: Usage,
    ) -> (r: Desc)
        ensures
            r == (Desc {
                resource_options,
                usage,
                ..spec_new_2d(pixel_format, width, 1, false)
            }),
    {
        let mut d = Desc::new_2d_with_pixel_format(pixel_format, width, 1, false);
        d.resource_options = resource_options;
        d.usage = usage;
        d
    }

    pub fn texture_type(&self) -> (r: Type)
        ensures
            r == self.texture_type,
    {
        self.texture_type
    }

    pub fn set_texture_type(&mut self, val: Type)
        ensures
            *final(self) == (Desc { texture_type: val, ..*old(self) }),
    {
        self.texture_type = val;
    }

    /// The descriptor with its type replaced, for building by chaining.
    pub fn with_texture_type(self, val: Type) -> (r: Desc)
        ensures
            r == (Desc { texture_type: val, ..self }),
    {
        Desc { texture_type: val, ..self }
    }

    pub fn pixel_format(&self) -> (r: PixelFormat)
        ensures
            r == self.pixel_format,
    {
        self.pixel_format
    }

    pub fn set_pixel_format(&mut self, val: PixelFormat)
        ensures
            *final(self) == (Desc { pixel_format: val, ..*old(self) }),
    {
        self.pixel_format = val;
    }

    /// The descriptor with its format replaced, for building by chaining.
    pub fn with_pixel_format(self, val: PixelFormat) -> (r: Desc)
        ensures
            r == (Desc { pixel_format: val, ..self }),
    {
        Desc { pixel_format: val, ..self }
    }

    pub fn width(&self) -> (r: usize)
        ensures
            r == self.width,
    {
        self.width
    }

    pub fn set_width(&mut self, val: usize)
        ensures
            *final(self) == (Desc { width: val, ..*old(self) }),
    {
        self.width = val;
    }

    pub fn height(&self) -> (r: usize)
        ensures
            r == self.height,
    {
        self.height
    }

    pub fn set_height(&mut self, val: usize)
        ensures
            *final(self) == (Desc { height: val, ..*old(self) }),
    {
        self.height = val;
    }

    pub fn depth(&self) -> (r: usize)
        ensures
            r == self.depth,
    {
        self.depth
    }

    pub fn set_depth(&mut self, val: usize)
        ensures
            *final(self) == (Desc { depth: val, ..*old(self) }),
    {
        self.depth = val;
    }

    pub fn mipmap_level_count(&self) -> (r: usize)
        ensures
            r == self.mipmap_level_count,
    {
        self.mipmap_level_count
    }

    pub fn set_mipmap_level_count(&mut self, val: usize)
        ensures
            *final(self) == (Desc { mipmap_level_count: val, ..*old(self) }),
    {
        self.mipmap_level_count = val;
    }

    pub fn sample_count(&self) -> (r: usize)
        ensures
            r == self.sample_count,
    {
        self.sample_count
    }

    pub fn set_sample_count(&mut self, val: usize)
        ensures
            *final(self) == (Desc { sample_count: val, ..*old(self) }),
    {
        self.sample_count = val;
    }

    pub fn array_len(&self) -> (r: usize)
        ensures
            r == self.array_len,
    {
        self.array_len
    }

    pub fn set_array_len(&mut self, val: usize)
        ensures
            *final(self) == (Desc { array_len: val, ..*old(self) }),
    {
        self.array_len = val;
    }

    pub fn usage(&self) -> (r: Usage)
        ensures
            r == self.usage,
    {
        self.usage
    }

    pub fn set_usage(&mut self, val: Usage)
        ensures
            *final(self) == (Desc { usage: val, ..*old(self) }),
    {
        self.usage = val;
    }

    pub fn allow_gpu_optimized_contents(&self) -> (r: bool)
        ensures
            r == self.allow_gpu_optimized_contents,
    {
        self.allow_gpu_optimized_contents
    }

    pub fn set_allow_gpu_optimized_contents(&mut self, val: bool)
        ensures
            *final(self) == (Desc { allow_gpu_optimized_contents: val, ..*old(self) }),
    {
        self.allow_gpu_optimized_contents = val;
    }

    pub fn compression_type(&self) -> (r: Compression)
        ensures
            r == self.compression_type,
    {
        self.compression_type
    }

    pub fn set_compression_type(&mut self, val: Compression)
        ensures
            *final(self) == (Desc { compression_type: val, ..*old(self) }),
    {
        self.compression_type = val;
    }

    pub fn swizzle(&self) -> (r: SwizzleChannels)
        ensures
            r == self.swizzle,
    {
        self.swizzle
    }

    pub fn set_swizzle(&mut self, val: SwizzleChannels)
        ensures
            *final(self) == (Desc { swizzle: val, ..*old(self) }),
    {
        self.swizzle = val;
    }
}

/// A texture as its accessors see it.  A view made of another texture
/// carries that texture as its parent.
#[derive(Debug, PartialEq)]
pub struct Texture {
    pub texture_type: Type,
    pub pixel_format: PixelFormat,
    pub width: usize,
    pub height: usize,
    pub depth: usize,
    pub parent: Option<Box<Texture>>,
    pub io_surf_plane: usize,
}

/// The texture a valid descriptor allocates: the descriptor's type, format
/// and sizes, no parent and no backing surface.
pub open spec fn spec_texture_of(desc: Desc) -> Texture {
    Texture {
        texture_type: desc.texture_type,
        pixel_format: desc.pixel_format,
        width: desc.width,
        height: desc.height,
        depth: desc.depth,
        parent: None,
        io_surf_plane: 0,
    }
}

impl Texture {
    pub fn texture_type(&self) -> (r: Type)
        ensures
            r == self.texture_type,
    {
        self.texture_type
    }

    pub fn pixel_format(&self) -> (r: PixelFormat)
        ensures
            r == self.pixel_format,
    {
        self.pixel_format
    }

    pub fn width(&self) -> (r: usize)
        ensures
            r == self.width,
    {
        self.width
    }

    pub fn height(&self) -> (r: usize)
        ensures
            r == self.height,
    {
        self.height
    }

    pub fn depth(&self) -> (r: usize)
        ensures
            r == self.depth,
    {
        self.depth
    }

    /// The texture this one is a view of, if any.
    pub fn parent_texture(&self) -> (r: Option<&Texture>)
        ensures
            match (r, self.parent) {
                (Some(p), Some(b)) => *p == *b,
                (None, None) => true,
                _ => false,
            },
    {
        match &self.parent {
            Some(b) => Some(&**b),
            None => None,
        }
    }

    /// A view of this texture under another pixel format: same sizes and
    /// type, the asked format, and this texture recorded as its parent.
    pub fn texture_view_with_pixel_format(&self, pixel_format: PixelFormat) -> (r: Option<Texture>)
        ensures
            r matches Some(t) ==> {
                &&& t.texture_type == self.texture_type
                &&& t.pixel_format == pixel_format
                &&& t.width == self.width
                &&& t.height == self.height
                &&& t.depth == self.depth
                &&& t.parent is Some
                &&& t.io_surf_plane == self.io_surf_plane
            },
            r is Some,
    {
        let core = Texture {
            texture_type: self.texture_type,
            pixel_format: self.pixel_format,
            width: self.width,
            height: self.height,
            depth: self.depth,
            parent: None,
            io_surf_plane: self.io_surf_plane,
        };
        Some(
            Texture {
                texture_type: self.texture_type,
                pixel_format,
                width: self.width,
                height: self.height,
                depth: self.depth,
                parent: Some(Box::new(core)),
                io_surf_plane: self.io_surf_plane,
            },
        )
    }

    /// The surface the texture was made from; none in this model, which
    /// only allocates from descriptors.
    pub fn io_surf(&self) -> (r: Option<&IoSurf>)
        ensures
            r is None,
    {
        None
    }

    /// The plane of the backing surface; zero without one.
    pub fn io_surf_plane(&self) -> (r: usize)
        ensures
            r == self.io_surf_plane,
    {
        self.io_surf_plane
    }
}

/// A surface shared with the display system; textures of this model are
/// never backed by one.
#[derive(Clone, Copy, Debug, PartialEq, Eq, Structural)]
pub struct IoSurf {
    pub surface_id: u32,
}

} // verus!
