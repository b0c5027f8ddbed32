//! The fixed set of pipeline kinds and their compilation settings.
//!
//! The renderer knows exactly four kinds of graphics pipeline — shaded,
//! cubemap (skybox), depth-only and wireframe — dispatched through one
//! compilation function.  Each kind fixes its shader pair, vertex layout,
//! polygon mode and push-constant layout; the viewport is sized to the
//! surface.

use crate::stage::{CullMode, PolygonMode, PushConstantRange};
use crate::surface::Extent2D;
use vstd::prelude::*;

verus! {

/// Shader-stage bits, as the device encodes them.
pub const SHADER_STAGE_VERTEX_BIT: u32 = 0x1;

pub const SHADER_STAGE_FRAGMENT_BIT: u32 = 0x10;

/// Stride of an interleaved position/normal/uv vertex, in bytes.
pub const VERTEX_STRIDE_POS_NORM_TEX: u32 = 32;

/// Stride of a position-only vertex, in bytes.
pub const VERTEX_STRIDE_POS: u32 = 12;

/// Push-constant bytes of the model transform, in the vertex stage.
pub const PUSH_CONSTANT_MODEL_SIZE: u32 = 64;

/// Push-constant bytes of the material factors, in the fragment stage.
pub const PUSH_CONSTANT_MATERIAL_SIZE: u32 = 28;

/// The named shader entry points the renderer loads.
#[derive(Debug, Clone, Copy, PartialEq, Eq, Structural)]
pub enum ShaderEntry {
    SkyboxVert,
    SkyboxFrag,
    OffscreenCubeVert,
    OffscreenCubeFrag,
    PbrVert,
    PbrFrag,
    DepthFrag,
}

/// The closed set of pipeline kinds.
#[derive(Debug, Clone, Copy, PartialEq, Eq, Structural)]
pub enum Pipeline {
    Shaded,
    Cubemap,
    Depth,
    Wireframe,
}

/// What one pipeline kind compiles to, beside the fixed-function state
/// shared by all kinds.
#[derive(Debug)]
pub struct PipelineConfig {
    pub vertex_shader: ShaderEntry,
    pub fragment_shader: ShaderEntry,
    pub vertex_stride: u32,
    pub polygon_mode: PolygonMode,
    pub cull_mode: CullMode,
    pub viewport_extent: Extent2D,
    pub push_constant_ranges: Vec<PushConstantRange>,
}

/// The push-constant layout of the shaded kinds: the model transform in
/// the vertex stage, the material factors behind it in the fragment
/// stage.
pub open spec fn shaded_push_constants() -> Seq<PushConstantRange> {
    seq![
        PushConstantRange {
            stage_flags: SHADER_STAGE_VERTEX_BIT,
            offset: 0,
            size: PUSH_CONSTANT_MODEL_SIZE,
        },
        PushConstantRange {
            stage_flags: SHADER_STAGE_FRAGMENT_BIT,
            offset: PUSH_CONSTANT_MODEL_SIZE,
            size: PUSH_CONSTANT_MATERIAL_SIZE,
        },
    ]
}

/// The settings `create` chooses for kind `p` at a given viewport size.
pub open spec fn pipeline_config_matches(c: PipelineConfig, p: Pipeline, extent: Extent2D) -> bool {
    &&& c.viewport_extent == extent
    &&& c.cull_mode == CullMode::Back
    &&& (match p {
        Pipeline::Shaded => {
            &&& c.vertex_shader == ShaderEntry::PbrVert
            &&& c.fragment_shader == ShaderEntry::PbrFrag
            &&& c.vertex_stride == VERTEX_STRIDE_POS_NORM_TEX
            &&& c.polygon_mode == PolygonMode::Fill
            &&& c.push_constant_ranges@ == shaded_push_constants()
        },
        Pipeline::Cubemap => {
            &&& c.vertex_shader == ShaderEntry::SkyboxVert
            &&& c.fragment_shader == ShaderEntry::SkyboxFrag
            &&& c.vertex_stride == VERTEX_STRIDE_POS
            &&& c.polygon_mode == PolygonMode::Fill
            &&& c.push_constant_ranges@ == Seq::<PushConstantRange>::empty()
        },
        Pipeline::Depth => {
            &&& c.vertex_shader == ShaderEntry::PbrVert
            &&& c.fragment_shader == ShaderEntry::DepthFrag
            &&& c.vertex_stride == VERTEX_STRIDE_POS_NORM_TEX
            &&& c.polygon_mode == PolygonMode::Fill
            &&& c.push_constant_ranges@ == Seq::<PushConstantRange>::empty()
        },
        Pipeline::Wireframe => {
            &&& c.vertex_shader == ShaderEntry::PbrVert
            &&& c.fragment_shader == ShaderEntry::PbrFrag
            &&& c.vertex_stride == VERTEX_STRIDE_POS_NORM_TEX
            &&& c.polygon_mode == PolygonMode::Line
            &&& c.push_constant_ranges@ == shaded_push_constants()
        },
    })
}

/// The little-endian bytes of one 32-bit word.
pub open spec fn le_bytes(w: u32) -> Seq<u8> {
    seq![
        (w & 0xFF) as u8,
        ((w >> 8) & 0xFF) as u8,
        ((w >> 16) & 0xFF) as u8,
        ((w >> 24) & 0xFF) as u8,
    ]
}

/// The little-endian bytes of a word sequence, in order.
pub open spec fn words_bytes(ws: Seq<u32>) -> Seq<u8>
    decreases ws.len(),
{
    if ws.len() == 0 {
        Seq::empty()
    } else {
        words_bytes(ws.drop_last()) + le_bytes(ws.last())
    }
}

/// The push-constant block of one draw, as an explicit layout rather
/// than a concatenation of separately transmuted structures: the
/// sixteen model-matrix words, then the four base-color words, then the
/// metalness, roughness and reflectance words, each little-endian.
pub fn push_constant_data(
    model: &[u32; 16],
    base_color: &[u32; 4],
    metallic: u32,
    roughness: u32,
    reflectance: u32,
) -> (r: Vec<u8>)
    ensures
        r@ == words_bytes(model@ + base_color@ + seq![metallic, roughness, reflectance]),
        r@.len() == PUSH_CONSTANT_MODEL_SIZE + PUSH_CONSTANT_MATERIAL_SIZE,
{
    let ghost all = model@ + base_color@ + seq![metallic, roughness, reflectance];
    let mut words: Vec<u32> = Vec::new();
    let mut i: usize = 0;
    while i < 16
        invariant
            i <= 16,
            words@ == model@.take(i as int),
        decreases 16 - i,
    {
        words.push(model[i]);
        proof {
            assert(model@.take(i + 1) =~= model@.take(i as int).push(model@[i as int]));
        }
        i = i + 1;
    }
    let mut j: usize = 0;
    while j < 4
        invariant
            j <= 4,
            words@ == model@ + base_color@.take(j as int),
        decreases 4 - j,
    {
        words.push(base_color[j]);
        proof {
            assert(model@ + base_color@.take(j + 1) =~= (model@ + base_color@.take(j as int)).push(
                base_color@[j as int],
            ));
        }
        j = j + 1;
    }
    words.push(metallic);
    words.push(roughness);
    words.push(reflectance);
    proof {
        assert(model@.take(16) =~= model@);
        assert(base_color@.take(4) =~= base_color@);
        assert(words@ =~= all);
    }

    let mut r: Vec<u8> = Vec::new();
    let n = words.len();
    let mut k: usize = 0;
    while k < n
        invariant
            n == words@.len(),
            k <= n,
            words@ == all,
            r@ == words_bytes(words@.take(k as int)),
            r@.len() == 4 * k,
        decreases n - k,
    {
        proof {
            assert(words@.take(k + 1).drop_last() =~= words@.take(k as int));
            assert(words@.take(k + 1).last() == words@[k as int]);
        }
        let w = words[k];
        r.push((w & 0xFF) as u8);
        r.push(((w >> 8) & 0xFF) as u8);
        r.push(((w >> 16) & 0xFF) as u8);
        r.push(((w >> 24) & 0xFF) as u8);
        proof {
            assert(r@ =~= words_bytes(words@.take(k as int)) + le_bytes(words@[k as int]));
        }
        k = k + 1;
    }
    proof {
        assert(words@.take(n as int) =~= words@);
    }
    r
}

impl Pipeline {
    /// The compilation settings of this pipeline kind at the given
    /// viewport size.
    pub fn create(&self, dimensions: Extent2D) -> (r: PipelineConfig)
        ensures
            pipeline_config_matches(r, *self, dimensions),
    {
        let mut push_constant_ranges: Vec<PushConstantRange> = Vec::new();
        match self {
            Pipeline::Shaded | Pipeline::Wireframe => {
                push_constant_ranges.push(
                    PushConstantRange {
                        stage_flags: SHADER_STAGE_VERTEX_BIT,
                        offset: 0,
                        size: PUSH_CONSTANT_MODEL_SIZE,
                    },
                );
                push_constant_ranges.push(
                    PushConstantRange {
                        stage_flags: SHADER_STAGE_FRAGMENT_BIT,
                        offset: PUSH_CONSTANT_MODEL_SIZE,
                        size: PUSH_CONSTANT_MATERIAL_SIZE,
                    },
                );
                proof {
                    assert(push_constant_ranges@ =~= shaded_push_constants());
                }
            },
            _ => {},
        }
        match self {
            Pipeline::Shaded => PipelineConfig {
                vertex_shader: ShaderEntry::PbrVert,
                fragment_shader: ShaderEntry::PbrFrag,
                vertex_stride: VERTEX_STRIDE_POS_NORM_TEX,
                polygon_mode: PolygonMode::Fill,
                cull_mode: CullMode::Back,
                viewport_extent: dimensions,
                push_constant_ranges,
            },
            Pipeline::Cubemap => PipelineConfig {
                vertex_shader: ShaderEntry::SkyboxVert,
                fragment_shader: ShaderEntry::SkyboxFrag,
                vertex_stride: VERTEX_STRIDE_POS,
                polygon_mode: PolygonMode::Fill,
                cull_mode: CullMode::Back,
                viewport_extent: dimensions,
                push_constant_ranges,
            },
            Pipeline::Depth => PipelineConfig {
                vertex_shader: ShaderEntry::PbrVert,
                fragment_shader: ShaderEntry::DepthFrag,
                vertex_stride: VERTEX_STRIDE_POS_NORM_TEX,
                polygon_mode: PolygonMode::Fill,
                cull_mode: CullMode::Back,
                viewport_extent: dimensions,
                push_constant_ranges,
            },
            Pipeline::Wireframe => PipelineConfig {
                vertex_shader: ShaderEntry::PbrVert,
                fragment_shader: ShaderEntry::PbrFrag,
                vertex_stride: VERTEX_STRIDE_POS_NORM_TEX,
                polygon_mode: PolygonMode::Line,
                cull_mode: CullMode::Back,
                viewport_extent: dimensions,
                push_constant_ranges,
            },
        }
    }
}

} // verus!
