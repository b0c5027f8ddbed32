//! World-side material and texture descriptions.
//!
//! These are the plain values handed to the render cache by the asset
//! importer: a texture is a named block of pixels with a format and size; a
//! material is a set of shading factors plus optional references, by name,
//! to up to four textures.  Shading factors are carried as raw IEEE-754
//! bit patterns (the core never computes with them, it only forwards them
//! to the GPU's push constants), so they are stored as `u32` words.

use vstd::prelude::*;

verus! {

/// Bit pattern of the 32-bit float 1.0.
pub const FLOAT_BITS_ONE: u32 = 0x3F80_0000;

/// Bit pattern of the 32-bit float 0.0.
pub const FLOAT_BITS_ZERO: u32 = 0;

/// Bit pattern of the 32-bit float 0.4.
pub const FLOAT_BITS_2_5TH: u32 = 0x3ECC_CCCD;

/// Bit pattern of the 32-bit float 0.5.
pub const FLOAT_BITS_HALF: u32 = 0x3F00_0000;

/// Pixel format of an imported texture: 8- or 16-bit channels, one to four
/// channels, red-first or blue-first order.
#[derive(Debug, Clone, Copy, PartialEq, Eq, Structural)]
pub enum ImageFormat {
    R8,
    R8G8,
    R8G8B8,
    R8G8B8A8,
    B8G8R8,
    B8G8R8A8,
    R16,
    R16G16,
    R16G16B16,
    R16G16B16A16,
}

/// A named block of pixels, as handed to the render cache.
#[derive(Debug)]
pub struct Texture {
    pub name: String,
    pub format: ImageFormat,
    pub pixels: Vec<u8>,
    pub width: u32,
    pub height: u32,
}

/// The value `Texture::default()` returns.
pub open spec fn texture_default(t: Texture) -> bool {
    &&& t.name@ == "Unnamed"@
    &&& t.format == ImageFormat::R8G8B8A8
    &&& t.pixels@ == Seq::<u8>::empty()
    &&& t.width == 0
    &&& t.height == 0
}

impl Default for Texture {
    fn default() -> (r: Self)
        ensures
            texture_default(r),
    {
        Texture {
            name: "Unnamed".to_owned(),
            format: ImageFormat::R8G8B8A8,
            pixels: Vec::new(),
            width: 0,
            height: 0,
        }
    }
}

/// A material's texture references, each a texture name: base color,
/// normal map, combined metallic/roughness, and ambient occlusion.
#[derive(Debug)]
pub struct TextureSet {
    pub base_color: Option<String>,
    pub normal: Option<String>,
    pub metallic_roughness: Option<String>,
    pub ao: Option<String>,
}

impl Default for TextureSet {
    fn default() -> (r: Self)
        ensures
            r.base_color is None,
            r.normal is None,
            r.metallic_roughness is None,
            r.ao is None,
    {
        TextureSet { base_color: None, normal: None, metallic_roughness: None, ao: None }
    }
}

/// Texture references by index into a texture list, used by importers that
/// have not yet resolved names.
#[derive(Debug)]
pub struct Textures {
    pub base_color: Option<usize>,
    pub normal: Option<usize>,
    pub metallic_roughness: Option<usize>,
}

impl Default for Textures {
    fn default() -> (r: Self)
        ensures
            r.base_color is None,
            r.normal is None,
            r.metallic_roughness is None,
    {
        Textures { base_color: None, normal: None, metallic_roughness: None }
    }
}

/// A named material: shading factors (raw 32-bit float patterns) and
/// optional texture references.
#[derive(Debug)]
pub struct Material {
    pub name: String,
    pub base_color_factor: [u32; 4],
    pub metallic_factor: u32,
    pub roughness_factor: u32,
    pub reflectance: u32,
    pub emissive_factor: [u32; 3],
    pub textures: TextureSet,
}

/// The value `Material::default()` returns: opaque white base color, no
/// metalness, roughness 0.4, reflectance 0.5, no emission, no textures.
pub open spec fn material_default(m: Material) -> bool {
    &&& m.name@ == "Unnamed"@
    &&& m.base_color_factor@ == seq![
        FLOAT_BITS_ONE,
        FLOAT_BITS_ONE,
        FLOAT_BITS_ONE,
        FLOAT_BITS_ONE,
    ]
    &&& m.metallic_factor == FLOAT_BITS_ZERO
    &&& m.roughness_factor == FLOAT_BITS_2_5TH
    &&& m.reflectance == FLOAT_BITS_HALF
    &&& m.emissive_factor@ == seq![FLOAT_BITS_ZERO, FLOAT_BITS_ZERO, FLOAT_BITS_ZERO]
    &&& m.textures.base_color is None
    &&& m.textures.normal is None
    &&& m.textures.metallic_roughness is None
    &&& m.textures.ao is None
}

impl Default for Material {
    fn default() -> (r: Self)
        ensures
            material_default(r),
    {
        let m = Material {
            name: "Unnamed".to_owned(),
            base_color_factor: [FLOAT_BITS_ONE, FLOAT_BITS_ONE, FLOAT_BITS_ONE, FLOAT_BITS_ONE],
            metallic_factor: FLOAT_BITS_ZERO,
            roughness_factor: FLOAT_BITS_2_5TH,
            reflectance: FLOAT_BITS_HALF,
            emissive_factor: [FLOAT_BITS_ZERO, FLOAT_BITS_ZERO, FLOAT_BITS_ZERO],
            textures: TextureSet::default(),
        };
        m
    }
}

} // verus!
