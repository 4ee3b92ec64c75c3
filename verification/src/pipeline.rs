//! Render pipelines: what one is created from, and the checks that a
//! description must pass before it is entered.

use crate::resources::{
    ColorTargetState, DepthStencilState, PrimitiveState, Shader, VertexAttribute, VertexFormat,
};
use vstd::prelude::*;

verus! {

/// Size in bytes of the uniform block that a pass hands to its shaders: a
/// four by four matrix, two vectors of three, and two words of padding, all
/// in words of four bytes.
pub const GLOBALS_SIZE: u32 = 96;

/// Size in bytes of one vertex: a position and a normal of three words each.
pub const VERTEX_STRIDE: u32 = 24;

/// Size in bytes of one index of an index buffer.
pub const INDEX_STRIDE: u32 = 4;

/// What a slot of shader data holds.
#[derive(Clone, Copy, Debug, PartialEq, Eq, Structural)]
pub enum BindingKind {
    /// A block of plain bytes of the given size.
    Plain { size: u32 },
    /// A texture view together with the sampler that reads it.
    Sampled,
}

/// One named slot of shader data.
#[derive(Clone, Copy, Debug, PartialEq)]
pub struct ShaderBinding {
    pub name: &'static str,
    pub kind: BindingKind,
}

/// The attributes of a vertex and the distance in bytes from one vertex to
/// the next.
#[derive(Clone, Debug, PartialEq)]
pub struct VertexLayout {
    pub attributes: Vec<VertexAttribute>,
    pub stride: u32,
}

impl VertexLayout {
    /// Every attribute lies within one vertex.
    pub open spec fn well_formed(&self) -> bool {
        forall|i: int|
            0 <= i < self.attributes@.len() ==> (#[trigger] self.attributes@[i]).fits(self.stride)
    }

    /// Finds the first attribute that reaches past the vertex.
    pub fn check(&self) -> (misfit: Option<usize>)
        ensures
            misfit is None <==> self.well_formed(),
            misfit matches Some(i) ==> {
                &&& i < self.attributes@.len()
                &&& !self.attributes@[i as int].fits(self.stride)
                &&& forall|j: int|
                    0 <= j < i ==> (#[trigger] self.attributes@[j]).fits(self.stride)
            },
    {
        let mut i: usize = 0;
        while i < self.attributes.len()
            invariant
                i <= self.attributes@.len(),
                forall|j: int| 0 <= j < i ==> (#[trigger] self.attributes@[j]).fits(self.stride),
            decreases self.attributes@.len() - i,
        {
            let attribute = self.attributes[i];
            let size = attribute.format.size();
            if size > self.stride || attribute.offset > self.stride - size {
                return Some(i);
            }
            i = i + 1;
        }
        None
    }
}

/// A function of a shader, by the name of its entry point.
#[derive(Clone, Copy, Debug, PartialEq)]
pub struct ShaderFunction {
    pub shader: Shader,
    pub entry_point: &'static str,
}

/// What a render pipeline is created from.
#[derive(Clone, Debug, PartialEq)]
pub struct RenderPipelineDesc {
    pub name: &'static str,
    /// The slots of shader data that a pass must fill.
    pub data_layout: Vec<ShaderBinding>,
    pub vertex: ShaderFunction,
    /// The layout of the vertices that a draw reads.
    pub vertex_layout: VertexLayout,
    pub instanced: bool,
    pub primitive: PrimitiveState,
    pub depth_stencil: Option<DepthStencilState>,
    pub fragment: ShaderFunction,
    pub color_targets: Vec<ColorTargetState>,
}

/// Why a pipeline's description was refused.
#[derive(Clone, Copy, Debug, PartialEq, Eq, Structural)]
pub enum PipelineError {
    /// The vertex or the fragment function names no shader.
    NoSuchShader,
    /// The attribute at this place reaches past the vertex.
    AttributeOutsideVertex(usize),
    /// The colour target at this place has a depth format.
    ColorTargetHoldsDepth(usize),
    /// The depth test names a format that holds no depth.
    DepthFormatHoldsNoDepth,
}

impl RenderPipelineDesc {
    /// Every colour target has a colour format.
    pub open spec fn colors_are_color(&self) -> bool {
        forall|i: int|
            0 <= i < self.color_targets@.len() ==> !(
            #[trigger] self.color_targets@[i]).format.depth()
    }

    /// The depth test, if there is one, names a depth format.
    pub open spec fn depth_is_depth(&self) -> bool {
        match self.depth_stencil {
            Some(state) => state.format.depth(),
            None => true,
        }
    }

    /// The description fits the vertex layout and the attachment formats it
    /// names, and its functions belong to shaders among the first `shaders`.
    pub open spec fn valid(&self, shaders: nat) -> bool {
        &&& self.vertex.shader.id < shaders
        &&& self.fragment.shader.id < shaders
        &&& self.vertex_layout.well_formed()
        &&& self.colors_are_color()
        &&& self.depth_is_depth()
    }

    /// `checked` is what the checks of the description say, run in the order
    /// of `PipelineError`'s variants: the first check that fails is
    /// reported, with the first place at which it fails.
    pub open spec fn explains(&self, shaders: nat, checked: Result<(), PipelineError>) -> bool {
        let shaders_known = self.vertex.shader.id < shaders && self.fragment.shader.id < shaders;
        match checked {
            Ok(()) => self.valid(shaders),
            Err(PipelineError::NoSuchShader) => !shaders_known,
            Err(PipelineError::AttributeOutsideVertex(i)) => {
                &&& shaders_known
                &&& i < self.vertex_layout.attributes@.len()
                &&& !self.vertex_layout.attributes@[i as int].fits(self.vertex_layout.stride)
                &&& forall|j: int|
                    0 <= j < i ==> (#[trigger] self.vertex_layout.attributes@[j]).fits(
                        self.vertex_layout.stride,
                    )
            },
            Err(PipelineError::ColorTargetHoldsDepth(i)) => {
                &&& shaders_known
                &&& self.vertex_layout.well_formed()
                &&& i < self.color_targets@.len()
                &&& self.color_targets@[i as int].format.depth()
                &&& forall|j: int|
                    0 <= j < i ==> !(#[trigger] self.color_targets@[j]).format.depth()
            },
            Err(PipelineError::DepthFormatHoldsNoDepth) => {
                &&& shaders_known
                &&& self.vertex_layout.well_formed()
                &&& self.colors_are_color()
                &&& !self.depth_is_depth()
            },
        }
    }

    /// Checks the description against the vertex layout and the attachment
    /// formats it names.
    pub fn validate(&self, shaders: usize) -> (checked: Result<(), PipelineError>)
        ensures
            self.explains(shaders as nat, checked),
    {
        if self.vertex.shader.id >= shaders || self.fragment.shader.id >= shaders {
            return Err(PipelineError::NoSuchShader);
        }
        match self.vertex_layout.check() {
            Some(i) => {
                return Err(PipelineError::AttributeOutsideVertex(i));
            },
            None => {},
        }
        let mut i: usize = 0;
        while i < self.color_targets.len()
            invariant
                i <= self.color_targets@.len(),
                self.vertex.shader.id < shaders && self.fragment.shader.id < shaders,
                self.vertex_layout.well_formed(),
                forall|j: int|
                    0 <= j < i ==> !(#[trigger] self.color_targets@[j]).format.depth(),
            decreases self.color_targets@.len() - i,
        {
            if self.color_targets[i].format.is_depth() {
                return Err(PipelineError::ColorTargetHoldsDepth(i));
            }
            i = i + 1;
        }
        match self.depth_stencil {
            Some(state) => {
                if !state.format.is_depth() {
                    return Err(PipelineError::DepthFormatHoldsNoDepth);
                }
            },
            None => {},
        }
        Ok(())
    }
}

/// The layout of a vertex of position and normal: `pos` at byte 0 and
/// `normal` at byte 12, three floats each, in a vertex of 24 bytes.
pub open spec fn is_vertex_layout(layout: VertexLayout) -> bool {
    &&& layout.stride == VERTEX_STRIDE
    &&& layout.attributes@.len() == 2
    &&& layout.attributes@[0].name == "pos"
    &&& layout.attributes@[0].offset == 0
    &&& layout.attributes@[0].format == VertexFormat::F32Vec3
    &&& layout.attributes@[1].name == "normal"
    &&& layout.attributes@[1].offset == 12
    &&& layout.attributes@[1].format == VertexFormat::F32Vec3
}

/// The layout of a vertex of position and normal.
pub fn vertex_layout() -> (layout: VertexLayout)
    ensures
        is_vertex_layout(layout),
        layout.well_formed(),
{
    let mut attributes: Vec<VertexAttribute> = Vec::new();
    attributes.push(VertexAttribute { name: "pos", offset: 0, format: VertexFormat::F32Vec3 });
    attributes.push(VertexAttribute { name: "normal", offset: 12, format: VertexFormat::F32Vec3 });
    VertexLayout { attributes, stride: VERTEX_STRIDE }
}

} // verus!
