//! The environment (skybox) rendering setup.
//!
//! The environment draws a textured cube around the scene.  Its equirect
//! source texture is first rendered offscreen into the six layers of a
//! cube image of a fixed size; the per-frame pass then samples that cube
//! behind the scene geometry.  The model records the fixed shape of this
//! setup: the offscreen target's size, layer count and formats, the cube's
//! vertex count, and that the offscreen pass pairs one color attachment
//! with one depth attachment.

use vstd::prelude::*;

verus! {

/// Edge length in pixels of the offscreen cube target.
pub const CUBE_DIMENSION: u32 = 1024;

/// One image layer per cube face.
pub const CUBE_IMAGE_LAYERS: u32 = 6;

/// A cube drawn as triangles: six faces, two triangles each.
pub const CUBE_VERTEX_COUNT: u32 = 36;

/// Format code of the offscreen color target (32-bit float RGBA).
pub const FORMAT_R32G32B32A32_SFLOAT: u32 = 109;

/// Format code of the depth buffer (16-bit unsigned normalised).
pub const FORMAT_D16_UNORM: u32 = 124;

/// The fixed offscreen environment setup.
#[derive(Debug, Clone, Copy, PartialEq, Eq)]
pub struct Environment {
    pub cube_dimensions: [u32; 2],
    pub cube_image_layers: u32,
    pub skybox_vertex_count: u32,
    pub offscreen_color_format: u32,
    pub offscreen_depth_format: u32,
    pub offscreen_color_attachments: u32,
    pub offscreen_depth_attachments: u32,
}

/// The one value `Environment::new` returns.
pub open spec fn environment_spec() -> Environment {
    Environment {
        cube_dimensions: [CUBE_DIMENSION, CUBE_DIMENSION],
        cube_image_layers: CUBE_IMAGE_LAYERS,
        skybox_vertex_count: CUBE_VERTEX_COUNT,
        offscreen_color_format: FORMAT_R32G32B32A32_SFLOAT,
        offscreen_depth_format: FORMAT_D16_UNORM,
        offscreen_color_attachments: 1,
        offscreen_depth_attachments: 1,
    }
}

impl Environment {
    /// The offscreen cube target and skybox draw setup.
    pub fn new() -> (r: Self)
        ensures
            r == environment_spec(),
            r.cube_dimensions@ == seq![CUBE_DIMENSION, CUBE_DIMENSION],
            r.cube_image_layers == CUBE_IMAGE_LAYERS,
            r.skybox_vertex_count == CUBE_VERTEX_COUNT,
            r.offscreen_color_format == FORMAT_R32G32B32A32_SFLOAT,
            r.offscreen_depth_format == FORMAT_D16_UNORM,
            r.offscreen_color_attachments == 1,
            r.offscreen_depth_attachments == 1,
    {
        Environment {
            cube_dimensions: [CUBE_DIMENSION, CUBE_DIMENSION],
            cube_image_layers: CUBE_IMAGE_LAYERS,
            skybox_vertex_count: CUBE_VERTEX_COUNT,
            offscreen_color_format: FORMAT_R32G32B32A32_SFLOAT,
            offscreen_depth_format: FORMAT_D16_UNORM,
            offscreen_color_attachments: 1,
            offscreen_depth_attachments: 1,
        }
    }
}

} // verus!
