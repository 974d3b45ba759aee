//! Plain value types shared across the renderer model: usage bit sets,
//! texture/pipeline configuration enums, viewport sizes and colors.

use vstd::prelude::*;

verus! {

/// Buffer usage bit: the buffer may serve as a copy source.
pub const BUFFER_USAGE_COPY_SRC: u32 = 4;
/// Buffer usage bit: the buffer may be written by queued copies.
pub const BUFFER_USAGE_COPY_DST: u32 = 8;
/// Buffer usage bit: the buffer feeds the vertex stage.
pub const BUFFER_USAGE_VERTEX: u32 = 32;
/// Buffer usage bit: the buffer backs a uniform binding.
pub const BUFFER_USAGE_UNIFORM: u32 = 64;
/// Buffer usage bit: the buffer backs a storage binding.
pub const BUFFER_USAGE_STORAGE: u32 = 128;

/// A set of buffer usage bits.
#[derive(Clone, Copy, Debug, PartialEq, Eq, Structural)]
pub struct BufferUsages {
    pub bits: u32,
}

impl BufferUsages {
    /// Whether every bit of `other` is set in `self`.
    pub fn contains(self, other: BufferUsages) -> (r: bool)
        ensures
            r == (self.bits & other.bits == other.bits),
    {
        self.bits & other.bits == other.bits
    }

    /// The union of the two bit sets.
    pub fn union(self, other: BufferUsages) -> (r: BufferUsages)
        ensures
            r.bits == self.bits | other.bits,
    {
        BufferUsages { bits: self.bits | other.bits }
    }
}

/// Texture usage bit: the texture may serve as a copy source.
pub const TEXTURE_USAGE_COPY_SRC: u32 = 1;
/// Texture usage bit: the texture may be written by queued copies.
pub const TEXTURE_USAGE_COPY_DST: u32 = 2;
/// Texture usage bit: the texture may be sampled from a shader.
pub const TEXTURE_USAGE_TEXTURE_BINDING: u32 = 4;
/// Texture usage bit: the texture may be bound as a storage image.
pub const TEXTURE_USAGE_STORAGE_BINDING: u32 = 8;
/// Texture usage bit: the texture may be rendered into.
pub const TEXTURE_USAGE_RENDER_ATTACHMENT: u32 = 16;

/// A set of texture usage bits.
#[derive(Clone, Copy, Debug, PartialEq, Eq, Structural)]
pub struct TextureUsages {
    pub bits: u32,
}

impl TextureUsages {
    /// Whether every bit of `other` is set in `self`.
    pub fn contains(self, other: TextureUsages) -> (r: bool)
        ensures
            r == (self.bits & other.bits == other.bits),
    {
        self.bits & other.bits == other.bits
    }

    /// The union of the two bit sets.
    pub fn union(self, other: TextureUsages) -> (r: TextureUsages)
        ensures
            r.bits == self.bits | other.bits,
    {
        TextureUsages { bits: self.bits | other.bits }
    }
}

/// Shader stage bit: vertex stage.
pub const SHADER_STAGE_VERTEX: u32 = 1;
/// Shader stage bit: fragment stage.
pub const SHADER_STAGE_FRAGMENT: u32 = 2;
/// Shader stage bit: compute stage.
pub const SHADER_STAGE_COMPUTE: u32 = 4;

/// A set of shader stages a binding is visible to.
#[derive(Clone, Copy, Debug, PartialEq, Eq, Structural)]
pub struct ShaderStages {
    pub bits: u32,
}

impl ShaderStages {
    /// Whether every bit of `other` is set in `self`.
    pub fn contains(self, other: ShaderStages) -> (r: bool)
        ensures
            r == (self.bits & other.bits == other.bits),
    {
        self.bits & other.bits == other.bits
    }

    /// The union of the two stage sets.
    pub fn union(self, other: ShaderStages) -> (r: ShaderStages)
        ensures
            r.bits == self.bits | other.bits,
    {
        ShaderStages { bits: self.bits | other.bits }
    }
}

/// Sampling filter for a texture's sampler.
#[derive(Clone, Copy, Debug, PartialEq, Eq, Structural)]
pub enum FilterMode {
    Nearest,
    Linear,
}

/// Dimensionality of a texture image.
#[derive(Clone, Copy, Debug, PartialEq, Eq, Structural)]
pub enum TextureDimension {
    D1,
    D2,
    D3,
}

/// Pixel format of a texture image.
#[derive(Clone, Copy, Debug, PartialEq, Eq, Structural)]
pub enum TextureFormat {
    Rgba8Unorm,
    Bgra8UnormSrgb,
    Rgba8Uint,
    Depth32Float,
}

/// How a shader samples a bound texture.
#[derive(Clone, Copy, Debug, PartialEq, Eq, Structural)]
pub enum TextureSampleType {
    Float { filterable: bool },
    Depth,
    Sint,
    Uint,
}

/// Winding order that marks a triangle's front face.
#[derive(Clone, Copy, Debug, PartialEq, Eq, Structural)]
pub enum FrontFace {
    Ccw,
    Cw,
}

/// A triangle side; culling is an optional `Face`.
#[derive(Clone, Copy, Debug, PartialEq, Eq, Structural)]
pub enum Face {
    Front,
    Back,
}

/// How vertices are assembled into primitives.
#[derive(Clone, Copy, Debug, PartialEq, Eq, Structural)]
pub enum PrimitiveTopology {
    PointList,
    LineList,
    TriangleList,
}

/// Depth-test comparison applied to incoming fragments.
#[derive(Clone, Copy, Debug, PartialEq, Eq, Structural)]
pub enum CompareFunction {
    Never,
    Less,
    LessEqual,
    Always,
}

/// A viewport size in whole pixels.
#[derive(Clone, Copy, Debug, PartialEq, Eq, Structural)]
pub struct SurfaceSize {
    pub width: u32,
    pub height: u32,
}

impl SurfaceSize {
    /// A size with the given pixel dimensions.
    pub fn new(width: u32, height: u32) -> (r: SurfaceSize)
        ensures
            r.width == width,
            r.height == height,
    {
        SurfaceSize { width, height }
    }
}

/// Extent of a texture image: two dimensions plus depth or layer count.
#[derive(Clone, Copy, Debug, PartialEq, Eq, Structural)]
pub struct Extent3d {
    pub width: u32,
    pub height: u32,
    pub depth_or_array_layers: u32,
}

/// A color with 8-bit red, green and blue components.
///
/// Palette entries are stored in this form; the normalized floating-point
/// form a shader consumes is derived outside the core by dividing each
/// component by 255.
#[derive(Clone, Copy, Debug, PartialEq, Eq, Structural)]
pub struct Color {
    pub r: u8,
    pub g: u8,
    pub b: u8,
}

impl Color {
    /// A color from its three components.
    pub fn new(r: u8, g: u8, b: u8) -> (c: Color)
        ensures
            c == (Color { r, g, b }),
    {
        Color { r, g, b }
    }
}

impl Default for Color {
    /// Black.
    fn default() -> (c: Color)
        ensures
            c == (Color { r: 0, g: 0, b: 0 }),
    {
        Color { r: 0, g: 0, b: 0 }
    }
}

/// Stand-in for one four-component vector element of a GPU buffer whose
/// contents are produced on the device only; the fields carry the raw bit
/// patterns of the components.
#[derive(Clone, Copy, Debug, PartialEq, Eq, Structural)]
pub struct Vec4Bits {
    pub x: u32,
    pub y: u32,
    pub z: u32,
    pub w: u32,
}

/// Explicit padding slot used to align uniform data to 16-byte boundaries.
#[derive(Clone, Copy, Debug, PartialEq, Eq, Structural)]
pub struct Padding {
    pub fill: u32,
}

impl Default for Padding {
    fn default() -> (p: Padding)
        ensures
            p.fill == 0,
    {
        Padding { fill: 0 }
    }
}

} // verus!
