//! Memory heaps: a descriptor naming a size, and the heap allocated from
//! it, handing out buffers and textures within that size.

use vstd::prelude::*;

use crate::mtl::{texture, Buffer, StorageMode};

verus! {

/// How a heap places its resources.
#[derive(Clone, Copy, Debug, PartialEq, Eq, Structural)]
pub enum Type {
    Automatic,
    Placement,
    Sparse,
}

/// What a heap is allocated from: its byte size and storage mode.
#[derive(Clone, Copy, Debug, PartialEq, Eq, Structural)]
pub struct Descriptor {
    pub size: usize,
    pub storage_mode: StorageMode,
}

impl Descriptor {
    /// A fresh descriptor: size zero, private storage.
    pub fn new() -> (r: Descriptor)
        ensures
            r.size == 0,
            r.storage_mode == StorageMode::Private,
    {
        Descriptor { size: 0, storage_mode: StorageMode::Private }
    }

    /// The byte size the heap will span.
    pub fn size(&self) -> (r: usize)
        ensures
            r == self.size,
    {
        self.size
    }

    /// Replaces the byte size the heap will span.
    pub fn set_size(&mut self, value: usize)
        ensures
            *final(self) == (Descriptor { size: value, ..*old(self) }),
    {
        self.size = value;
    }
}

/// A heap of device memory.
#[derive(Clone, Copy, Debug, PartialEq, Eq, Structural)]
pub struct Heap {
    pub size: usize,
    pub storage_mode: StorageMode,
}

impl Heap {
    /// The byte size the heap spans.
    pub fn size(&self) -> (r: usize)
        ensures
            r == self.size,
    {
        self.size
    }

    /// A buffer from the heap: handed out exactly when the asked length
    /// fits the heap's size, and then spanning exactly that length.
    pub fn buffer_with_length_and_options(
        &self,
        length: usize,
        options: crate::mtl::ResourceOptions,
    ) -> (r: Option<Buffer>)
        ensures
            r is Some <==> length <= self.size,
            r matches Some(b) ==> b.length == length,
    {
        let _ = options;
        if length <= self.size {
            Some(Buffer { length })
        } else {
            None
        }
    }

    /// A texture from the heap, under the same validity rule as the
    /// device's own factory.
    pub fn texture_with_descriptor(&self, descriptor: &texture::Desc) -> (r: Option<
        texture::Texture,
    >)
        ensures
            r is Some <==> descriptor.spec_valid(),
            r matches Some(t) ==> t == texture::spec_texture_of(*descriptor),
    {
        if descriptor.width == 0 || descriptor.height == 0 || descriptor.depth == 0 {
            return None;
        }
        Some(
            texture::Texture {
                texture_type: descriptor.texture_type,
                pixel_format: descriptor.pixel_format,
                width: descriptor.width,
                height: descriptor.height,
                depth: descriptor.depth,
                parent: None,
                io_surf_plane: 0,
            },
        )
    }
}

} // verus!
