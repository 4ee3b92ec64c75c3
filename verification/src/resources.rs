//! Descriptions of device resources, as plain values, and the handles that
//! stand for the resources themselves.

use vstd::prelude::*;

verus! {

/// Where a buffer's memory lives.
#[derive(Clone, Copy, Debug, PartialEq, Eq, Structural)]
pub enum Memory {
    /// Device-local memory, out of the processor's reach.
    Device,
    /// Memory that processor and device share.
    Shared,
    /// Memory that the processor fills for a transfer.
    Upload,
}

impl Memory {
    /// The processor can write to memory of this kind.
    pub open spec fn host_visible(self) -> bool {
        self != Memory::Device
    }

    /// Tells whether the processor can write to memory of this kind.
    pub fn is_host_visible(&self) -> (visible: bool)
        ensures
            visible == self.host_visible(),
    {
        match self {
            Memory::Device => false,
            Memory::Shared => true,
            Memory::Upload => true,
        }
    }
}

/// What a buffer is created from.
#[derive(Clone, Copy, Debug, PartialEq)]
pub struct BufferDesc {
    pub name: &'static str,
    /// Size in bytes.
    pub size: u64,
    pub memory: Memory,
}

/// Handle of a buffer.
#[derive(Clone, Copy, Debug, PartialEq, Eq, Structural)]
pub struct Buffer {
    pub id: usize,
}

/// A buffer from a byte offset on.
#[derive(Clone, Copy, Debug, PartialEq, Eq, Structural)]
pub struct BufferPiece {
    pub buffer: Buffer,
    pub offset: u64,
}

impl Buffer {
    /// The whole buffer as a piece.
    pub fn whole(self) -> (piece: BufferPiece)
        ensures
            piece == (BufferPiece { buffer: self, offset: 0 }),
    {
        BufferPiece { buffer: self, offset: 0 }
    }
}

/// The layout of a texel.
#[derive(Clone, Copy, Debug, PartialEq, Eq, Structural)]
pub enum TextureFormat {
    R8Unorm,
    Rg8Unorm,
    Rg8Snorm,
    Rgba8Unorm,
    Rgba8UnormSrgb,
    Bgra8Unorm,
    Bgra8UnormSrgb,
    Rgba8Snorm,
    R16Float,
    Rg16Float,
    Rgba16Float,
    R32Float,
    Rg32Float,
    Rgba32Float,
    R32Uint,
    Rg32Uint,
    Rgba32Uint,
    Depth32Float,
    Bc1Unorm,
    Bc1UnormSrgb,
    Bc2Unorm,
    Bc2UnormSrgb,
    Bc3Unorm,
    Bc3UnormSrgb,
    Bc4Unorm,
    Bc4Snorm,
    Bc5Unorm,
    Bc5Snorm,
    Bc6hUfloat,
    Bc6hFloat,
    Bc7Unorm,
    Bc7UnormSrgb,
    Rgb10a2Unorm,
    Rg11b10Ufloat,
    Rgb9e5Ufloat,
}

impl TextureFormat {
    /// The format holds depth, and can be compared against.
    pub open spec fn depth(self) -> bool {
        self == TextureFormat::Depth32Float
    }

    /// Tells whether the format holds depth.
    pub fn is_depth(&self) -> (depth: bool)
        ensures
            depth == self.depth(),
    {
        match self {
            TextureFormat::Depth32Float => true,
            _ => false,
        }
    }
}

/// Number of dimensions of a texture.
#[derive(Clone, Copy, Debug, PartialEq, Eq, Structural)]
pub enum TextureDimension {
    D1,
    D2,
    D3,
}

/// Shape in which a view shows its texture.
#[derive(Clone, Copy, Debug, PartialEq, Eq, Structural)]
pub enum ViewDimension {
    D1,
    D1Array,
    D2,
    D2Array,
    Cube,
    CubeArray,
    D3,
}

/// Size of a texture in texels.
#[derive(Clone, Copy, Debug, PartialEq, Eq, Structural)]
pub struct Extent {
    pub width: u32,
    pub height: u32,
    pub depth: u32,
}

/// What may be done with a texture.
#[derive(Clone, Copy, Debug, PartialEq, Eq, Structural)]
pub struct TextureUsage {
    /// Source or destination of a copy.
    pub copy: bool,
    /// Attachment of a render pass.
    pub target: bool,
    /// Read by a shader.
    pub resource: bool,
    /// Written by a shader.
    pub storage: bool,
}

impl TextureUsage {
    /// Use as an attachment of a render pass.
    pub fn target() -> (usage: TextureUsage)
        ensures
            usage == (TextureUsage { copy: false, target: true, resource: false, storage: false }),
    {
        TextureUsage { copy: false, target: true, resource: false, storage: false }
    }

    /// Use as a texture that a shader reads.
    pub fn resource() -> (usage: TextureUsage)
        ensures
            usage == (TextureUsage { copy: false, target: false, resource: true, storage: false }),
    {
        TextureUsage { copy: false, target: false, resource: true, storage: false }
    }

    /// Every use of `self` and every use of `other`.
    pub open spec fn spec_union(self, other: TextureUsage) -> TextureUsage {
        TextureUsage {
            copy: self.copy || other.copy,
            target: self.target || other.target,
            resource: self.resource || other.resource,
            storage: self.storage || other.storage,
        }
    }

    /// Every use of `self` and every use of `other`.
    pub fn union(self, other: TextureUsage) -> (usage: TextureUsage)
        ensures
            usage == self.spec_union(other),
    {
        TextureUsage {
            copy: self.copy || other.copy,
            target: self.target || other.target,
            resource: self.resource || other.resource,
            storage: self.storage || other.storage,
        }
    }
}

/// What a texture is created from.
#[derive(Clone, Copy, Debug, PartialEq)]
pub struct TextureDesc {
    pub name: &'static str,
    pub format: TextureFormat,
    pub size: Extent,
    pub array_layer_count: u32,
    pub mip_level_count: u32,
    pub dimension: TextureDimension,
    pub usage: TextureUsage,
}

/// Handle of a texture.
#[derive(Clone, Copy, Debug, PartialEq, Eq, Structural)]
pub struct Texture {
    pub id: usize,
}

/// What a view of a texture is created from. The view shows all of the
/// texture's levels and layers.
#[derive(Clone, Copy, Debug, PartialEq)]
pub struct TextureViewDesc {
    pub name: &'static str,
    pub format: TextureFormat,
    pub dimension: ViewDimension,
}

/// Handle of a view of a texture.
#[derive(Clone, Copy, Debug, PartialEq, Eq, Structural)]
pub struct TextureView {
    pub id: usize,
}

/// How a sampler treats coordinates outside a texture.
#[derive(Clone, Copy, Debug, PartialEq, Eq, Structural)]
pub enum AddressMode {
    ClampToEdge,
    Repeat,
    MirrorRepeat,
    ClampToBorder,
}

/// How a sampler mixes texels.
#[derive(Clone, Copy, Debug, PartialEq, Eq, Structural)]
pub enum FilterMode {
    Nearest,
    Linear,
}

/// A comparison of a new value against a stored one.
#[derive(Clone, Copy, Debug, PartialEq, Eq, Structural)]
pub enum CompareFunction {
    Never,
    Less,
    Equal,
    LessEqual,
    Greater,
    NotEqual,
    GreaterEqual,
    Always,
}

/// What a sampler is created from. A sampler with a comparison is a
/// comparison sampler: it reads depth textures only.
#[derive(Clone, Copy, Debug, PartialEq)]
pub struct SamplerDesc {
    pub name: &'static str,
    pub address_mode: AddressMode,
    pub mag_filter: FilterMode,
    pub min_filter: FilterMode,
    pub mipmap_filter: FilterMode,
    pub compare: Option<CompareFunction>,
}

impl SamplerDesc {
    /// A sampler of the given name that clamps to the edge, takes the nearest
    /// texel and compares nothing.
    pub fn named(name: &'static str) -> (desc: SamplerDesc)
        ensures
            desc.name == name,
            desc.address_mode == AddressMode::ClampToEdge,
            desc.mag_filter == FilterMode::Nearest,
            desc.min_filter == FilterMode::Nearest,
            desc.mipmap_filter == FilterMode::Nearest,
            desc.compare == None::<CompareFunction>,
    {
        SamplerDesc {
            name,
            address_mode: AddressMode::ClampToEdge,
            mag_filter: FilterMode::Nearest,
            min_filter: FilterMode::Nearest,
            mipmap_filter: FilterMode::Nearest,
            compare: None,
        }
    }
}

/// Handle of a sampler.
#[derive(Clone, Copy, Debug, PartialEq, Eq, Structural)]
pub struct Sampler {
    pub id: usize,
}

/// Handle of a shader module.
#[derive(Clone, Copy, Debug, PartialEq, Eq, Structural)]
pub struct Shader {
    pub id: usize,
}

/// Handle of a render pipeline.
#[derive(Clone, Copy, Debug, PartialEq, Eq, Structural)]
pub struct RenderPipeline {
    pub id: usize,
}

/// The type of one vertex attribute.
#[derive(Clone, Copy, Debug, PartialEq, Eq, Structural)]
pub enum VertexFormat {
    F32,
    F32Vec2,
    F32Vec3,
    F32Vec4,
    U32,
    U32Vec2,
    U32Vec3,
    U32Vec4,
    I32,
    I32Vec2,
    I32Vec3,
    I32Vec4,
}

impl VertexFormat {
    /// Size of an attribute of this type, in bytes: four for each component.
    pub open spec fn spec_size(self) -> u32 {
        match self {
            VertexFormat::F32 | VertexFormat::U32 | VertexFormat::I32 => 4,
            VertexFormat::F32Vec2 | VertexFormat::U32Vec2 | VertexFormat::I32Vec2 => 8,
            VertexFormat::F32Vec3 | VertexFormat::U32Vec3 | VertexFormat::I32Vec3 => 12,
            VertexFormat::F32Vec4 | VertexFormat::U32Vec4 | VertexFormat::I32Vec4 => 16,
        }
    }

    /// Size of an attribute of this type, in bytes.
    pub fn size(&self) -> (bytes: u32)
        ensures
            bytes == self.spec_size(),
    {
        match self {
            VertexFormat::F32 | VertexFormat::U32 | VertexFormat::I32 => 4,
            VertexFormat::F32Vec2 | VertexFormat::U32Vec2 | VertexFormat::I32Vec2 => 8,
            VertexFormat::F32Vec3 | VertexFormat::U32Vec3 | VertexFormat::I32Vec3 => 12,
            VertexFormat::F32Vec4 | VertexFormat::U32Vec4 | VertexFormat::I32Vec4 => 16,
        }
    }
}

/// One attribute of a vertex: where it starts within the vertex, and its type.
#[derive(Clone, Copy, Debug, PartialEq)]
pub struct VertexAttribute {
    pub name: &'static str,
    pub offset: u32,
    pub format: VertexFormat,
}

impl VertexAttribute {
    /// The attribute lies within a vertex of `stride` bytes.
    pub open spec fn fits(self, stride: u32) -> bool {
        self.offset + self.format.spec_size() <= stride
    }
}

/// How the primitives of a draw are assembled.
#[derive(Clone, Copy, Debug, PartialEq, Eq, Structural)]
pub enum PrimitiveTopology {
    PointList,
    LineList,
    LineStrip,
    TriangleList,
    TriangleStrip,
}

/// The winding that marks a triangle's front.
#[derive(Clone, Copy, Debug, PartialEq, Eq, Structural)]
pub enum FrontFace {
    Ccw,
    Cw,
}

/// A side of a triangle.
#[derive(Clone, Copy, Debug, PartialEq, Eq, Structural)]
pub enum Face {
    Front,
    Back,
}

/// How a pipeline assembles and culls primitives.
#[derive(Clone, Copy, Debug, PartialEq)]
pub struct PrimitiveState {
    pub topology: PrimitiveTopology,
    pub front_face: FrontFace,
    pub cull_mode: Option<Face>,
    pub unclipped_depth: bool,
    pub wireframe: bool,
}

/// The depth test of a pipeline.
#[derive(Clone, Copy, Debug, PartialEq)]
pub struct DepthStencilState {
    pub format: TextureFormat,
    pub depth_write_enabled: bool,
    pub depth_compare: CompareFunction,
}

/// How a pipeline blends its output into a colour target.
#[derive(Clone, Copy, Debug, PartialEq, Eq, Structural)]
pub enum BlendState {
    Replace,
    AlphaBlending,
    PremultipliedAlphaBlending,
    Additive,
}

/// One colour target of a pipeline.
#[derive(Clone, Copy, Debug, PartialEq)]
pub struct ColorTargetState {
    pub format: TextureFormat,
    pub blend: Option<BlendState>,
}

/// The colour a target is cleared to.
#[derive(Clone, Copy, Debug, PartialEq, Eq, Structural)]
pub enum TextureColor {
    TransparentBlack,
    OpaqueBlack,
    White,
}

/// What an attachment holds when a pass begins.
#[derive(Clone, Copy, Debug, PartialEq, Eq, Structural)]
pub enum InitOp {
    /// What it held before.
    Load,
    /// A constant colour.
    Clear(TextureColor),
    /// Anything.
    DontCare,
}

/// What becomes of an attachment when a pass ends.
#[derive(Clone, Copy, Debug, PartialEq, Eq, Structural)]
pub enum FinishOp {
    /// Its contents are kept.
    Store,
    /// Its contents are dropped.
    Discard,
}

/// How a surface paces presentation.
#[derive(Clone, Copy, Debug, PartialEq, Eq, Structural)]
pub enum DisplaySync {
    Block,
    Recent,
    Tear,
}

/// What a presentable surface is configured with.
#[derive(Clone, Copy, Debug, PartialEq)]
pub struct SurfaceConfig {
    pub size: Extent,
    pub usage: TextureUsage,
    pub display_sync: DisplaySync,
}

/// What a command encoder is created from.
#[derive(Clone, Copy, Debug, PartialEq)]
pub struct CommandEncoderDesc {
    pub name: &'static str,
    /// Number of command buffers that the encoder cycles through.
    pub buffer_count: u32,
}

/// A point on the device's timeline: the number of the submission that it
/// follows, counted from one.
#[derive(Clone, Copy, Debug, PartialEq, Eq, Structural)]
pub struct SyncPoint {
    pub progress: u64,
}

} // verus!
