//! GPU texture model.
//!
//! A [`Texture`] keeps the descriptor snapshot its device image was
//! created from, plus a generation number standing for the identity of
//! that image.  A resize never mutates the image: the whole object is
//! recreated from the descriptor with new dimensions, so the generation
//! moves on and every binding referencing the old image is stale.

use vstd::prelude::*;

use crate::types::{
    FilterMode, SurfaceSize, TextureDimension, TextureFormat, TextureSampleType, TextureUsages,
    TEXTURE_USAGE_RENDER_ATTACHMENT,
};

verus! {

/// Texture binding aspect bit: the sampled image itself.
pub const TEXTURE_RESOURCE_TEXTURE: u32 = 1;
/// Texture binding aspect bit: the image's sampler.
pub const TEXTURE_RESOURCE_SAMPLER: u32 = 2;
/// Texture binding aspect bit: the image as writable storage.
pub const TEXTURE_RESOURCE_STORAGE: u32 = 4;

/// The set of binding aspects a texture contributes to a resource list.
#[derive(Clone, Copy, Debug, PartialEq, Eq, Structural)]
pub struct TextureResourceUsage {
    pub bits: u32,
}

impl TextureResourceUsage {
    /// Whether every bit of `other` is set in `self`.
    pub fn contains(self, other: TextureResourceUsage) -> (r: bool)
        ensures
            r == (self.bits & other.bits == other.bits),
    {
        self.bits & other.bits == other.bits
    }

    /// The union of the two aspect sets.
    pub fn union(self, other: TextureResourceUsage) -> (r: TextureResourceUsage)
        ensures
            r.bits == self.bits | other.bits,
    {
        TextureResourceUsage { bits: self.bits | other.bits }
    }
}

/// How a texture participates in a resource binding: which aspects it
/// contributes and, when it is sampled, how the shader reads it.
#[derive(Clone, Copy, Debug, PartialEq, Eq, Structural)]
pub struct TextureResourceDescriptor {
    pub usage: TextureResourceUsage,
    pub sample_type: Option<TextureSampleType>,
}

/// Everything a device image is created from.
#[derive(Clone, Copy, Debug)]
pub struct TextureDescriptor {
    pub width: u32,
    pub height: u32,
    pub depth: Option<u32>,
    pub filter: FilterMode,
    pub dimension: TextureDimension,
    pub usage: TextureUsages,
    pub format: TextureFormat,
    pub label: &'static str,
}

impl TextureDescriptor {
    /// The image depth: the declared layer count, or 1 when none is set.
    pub fn depth_or(&self, default_depth: u32) -> (r: u32)
        ensures
            r == self.depth_spec(default_depth),
    {
        match self.depth {
            Some(d) => d,
            None => default_depth,
        }
    }

    /// The declared depth, or `default_depth` when none is set.
    pub open spec fn depth_spec(&self, default_depth: u32) -> u32 {
        match self.depth {
            Some(d) => d,
            None => default_depth,
        }
    }
}

/// A view onto a texture's image, identified by the image generation it
/// was taken from.
#[derive(Clone, Copy, Debug, PartialEq, Eq, Structural)]
pub struct TextureViewHandle {
    pub generation: u64,
}

/// A device image together with its descriptor snapshot.  The live image
/// always matches `description`; `generation` names the current image.
pub struct Texture {
    pub description: TextureDescriptor,
    pub generation: u64,
}

impl Texture {
    /// A fresh texture whose image, view and sampler are created from the
    /// given descriptor.
    pub fn new(description: TextureDescriptor) -> (t: Texture)
        ensures
            t.description == description,
            t.generation == 0,
    {
        Texture { description, generation: 0 }
    }

    /// Recreates the whole texture from a copy of its descriptor with the
    /// dimensions replaced: width and height become the new size, every
    /// other descriptor field is preserved, and the image identity moves
    /// to a new generation.
    pub fn resize(&mut self, size: SurfaceSize)
        requires
            old(self).generation < u64::MAX,
        ensures
            final(self).description == (TextureDescriptor {
                width: size.width,
                height: size.height,
                ..old(self).description
            }),
            final(self).generation == old(self).generation + 1,
    {
        self.description.width = size.width;
        self.description.height = size.height;
        self.generation = self.generation + 1;
    }

    /// The descriptor the live image matches.
    pub fn description(&self) -> (r: &TextureDescriptor)
        ensures
            r == self.description,
    {
        &self.description
    }

    /// The generation of the live image.
    pub fn generation(&self) -> (r: u64)
        ensures
            r == self.generation,
    {
        self.generation
    }

    /// Whether the texture was declared usable as a render target.
    pub fn is_render_attachment(&self) -> (r: bool)
        ensures
            r == self.description.usage.spec_has_render_attachment(),
    {
        self.description.usage.contains(TextureUsages { bits: TEXTURE_USAGE_RENDER_ATTACHMENT })
    }

    /// A view of the live image for use as a render surface.  Using a
    /// texture without render-attachment usage as a render target is a
    /// wiring mistake, so it is ruled out here rather than reported.
    pub fn render_target_view(&self) -> (h: TextureViewHandle)
        requires
            self.description.usage.spec_has_render_attachment(),
        ensures
            h.generation == self.generation,
    {
        TextureViewHandle { generation: self.generation }
    }
}

impl TextureUsages {
    /// Whether the render-attachment bit is set.
    pub open spec fn spec_has_render_attachment(&self) -> bool {
        self.bits & TEXTURE_USAGE_RENDER_ATTACHMENT == TEXTURE_USAGE_RENDER_ATTACHMENT
    }
}

} // verus!
