//! Shader modules: pre-compiled SPIR-V binaries loaded by stage.
//!
//! Shader sources are compiled offline; the core only decodes binary blobs
//! into 32-bit words and tags each module with its pipeline stage.  The
//! decode accepts a blob in either byte order, keyed on the SPIR-V magic
//! number in its first word.

use vstd::prelude::*;

verus! {

/// The SPIR-V magic number, first word of every valid module.
pub const SPIRV_MAGIC: u32 = 0x0723_0203;

/// The pipeline stage a shader module runs in.
#[derive(Debug, Clone, Copy, PartialEq, Eq, Structural)]
pub enum ShaderStage {
    Vertex,
    Fragment,
}

/// Word `i` of `b` read in little-endian order.
pub open spec fn word_le(b: Seq<u8>, i: int) -> u32
    recommends
        0 <= i,
        4 * i + 3 < b.len(),
{
    (b[4 * i] as u32) | ((b[4 * i + 1] as u32) << 8) | ((b[4 * i + 2] as u32) << 16) | ((b[4 * i
        + 3] as u32) << 24)
}

/// Word `i` of `b` read in big-endian order.
pub open spec fn word_be(b: Seq<u8>, i: int) -> u32
    recommends
        0 <= i,
        4 * i + 3 < b.len(),
{
    ((b[4 * i] as u32) << 24) | ((b[4 * i + 1] as u32) << 16) | ((b[4 * i + 2] as u32) << 8) | (b[4
        * i + 3] as u32)
}

/// All of `b` decoded as little-endian words.
pub open spec fn words_le(b: Seq<u8>) -> Seq<u32> {
    Seq::new((b.len() / 4) as nat, |i: int| word_le(b, i))
}

/// All of `b` decoded as big-endian words.
pub open spec fn words_be(b: Seq<u8>) -> Seq<u32> {
    Seq::new((b.len() / 4) as nat, |i: int| word_be(b, i))
}

/// The words of a SPIR-V blob: the byte order is whichever makes the first
/// word the magic number.  `None` when the length is not a whole number of
/// words, the blob is empty, or the magic number is absent.
pub open spec fn spv_words(b: Seq<u8>) -> Option<Seq<u32>> {
    if b.len() == 0 || b.len() % 4 != 0 {
        None
    } else if word_le(b, 0) == SPIRV_MAGIC {
        Some(words_le(b))
    } else if word_be(b, 0) == SPIRV_MAGIC {
        Some(words_be(b))
    } else {
        None
    }
}

/// Relies on `ash::util::read_spv`: it decodes a whole-word blob into
/// native-endian words, byte-swaps them all when the first word carries
/// the magic number in the opposite order, and rejects any blob that does
/// not then start with the magic number.  The outcome is therefore the
/// byte-order-normalised decode, independent of the machine.
#[verifier::external_body]
fn read_spv_words(bytes: &[u8]) -> (r: Option<Vec<u32>>)
    ensures
        match r {
            Some(words) => spv_words(bytes@) == Some(words@),
            None => spv_words(bytes@) is None,
        },
{
    let mut cursor = std::io::Cursor::new(bytes);
    match ash::util::read_spv(&mut cursor) {
        Ok(words) => Some(words),
        Err(_) => None,
    }
}

/// A decoded shader binary tagged with its pipeline stage.
#[derive(Debug)]
pub struct ShaderModule {
    pub stage: ShaderStage,
    pub code: Vec<u32>,
}

impl ShaderModule {
    /// Decode a SPIR-V blob; `None` when the blob is malformed.
    pub fn new(spirv: &[u8], stage: ShaderStage) -> (r: Option<Self>)
        ensures
            match r {
                Some(m) => {
                    &&& spv_words(spirv@) == Some(m.code@)
                    &&& m.stage == stage
                },
                None => spv_words(spirv@) is None,
            },
    {
        match read_spv_words(spirv) {
            Some(code) => Some(ShaderModule { stage, code }),
            None => None,
        }
    }
}

/// The full set of shader binaries the renderer loads at startup, by
/// entry point.
#[derive(Debug)]
pub struct Shaders {
    pub cubemap_vert: ShaderModule,
    pub cubemap_frag: ShaderModule,
    pub offscreen_cube_vert: ShaderModule,
    pub offscreen_cube_frag: ShaderModule,
    pub vertex: ShaderModule,
    pub fragment: ShaderModule,
    pub depth: ShaderModule,
}

impl Shaders {
    /// Decode the seven blobs; `None` as soon as one is malformed.
    pub fn new(
        cubemap_vert: &[u8],
        cubemap_frag: &[u8],
        offscreen_cube_vert: &[u8],
        offscreen_cube_frag: &[u8],
        vertex: &[u8],
        fragment: &[u8],
        depth: &[u8],
    ) -> (r: Option<Self>)
        ensures
            r is Some <==> {
                &&& spv_words(cubemap_vert@) is Some
                &&& spv_words(cubemap_frag@) is Some
                &&& spv_words(offscreen_cube_vert@) is Some
                &&& spv_words(offscreen_cube_frag@) is Some
                &&& spv_words(vertex@) is Some
                &&& spv_words(fragment@) is Some
                &&& spv_words(depth@) is Some
            },
            r matches Some(s) ==> {
                &&& s.cubemap_vert.stage == ShaderStage::Vertex
                &&& s.cubemap_frag.stage == ShaderStage::Fragment
                &&& s.offscreen_cube_vert.stage == ShaderStage::Vertex
                &&& s.offscreen_cube_frag.stage == ShaderStage::Fragment
                &&& s.vertex.stage == ShaderStage::Vertex
                &&& s.fragment.stage == ShaderStage::Fragment
                &&& s.depth.stage == ShaderStage::Fragment
                &&& Some(s.cubemap_vert.code@) == spv_words(cubemap_vert@)
                &&& Some(s.cubemap_frag.code@) == spv_words(cubemap_frag@)
                &&& Some(s.offscreen_cube_vert.code@) == spv_words(offscreen_cube_vert@)
                &&& Some(s.offscreen_cube_frag.code@) == spv_words(offscreen_cube_frag@)
                &&& Some(s.vertex.code@) == spv_words(vertex@)
                &&& Some(s.fragment.code@) == spv_words(fragment@)
                &&& Some(s.depth.code@) == spv_words(depth@)
            },
    {
        let cubemap_vert = match ShaderModule::new(cubemap_vert, ShaderStage::Vertex) {
            Some(m) => m,
            None => {
                return None;
            },
        };
        let cubemap_frag = match ShaderModule::new(cubemap_frag, ShaderStage::Fragment) {
            Some(m) => m,
            None => {
                return None;
            },
        };
        let offscreen_cube_vert = match ShaderModule::new(offscreen_cube_vert, ShaderStage::Vertex) {
            Some(m) => m,
            None => {
                return None;
            },
        };
        let offscreen_cube_frag = match ShaderModule::new(
            offscreen_cube_frag,
            ShaderStage::Fragment,
        ) {
            Some(m) => m,
            None => {
                return None;
            },
        };
        let vertex = match ShaderModule::new(vertex, ShaderStage::Vertex) {
            Some(m) => m,
            None => {
                return None;
            },
        };
        let fragment = match ShaderModule::new(fragment, ShaderStage::Fragment) {
            Some(m) => m,
            None => {
                return None;
            },
        };
        let depth = match ShaderModule::new(depth, ShaderStage::Fragment) {
            Some(m) => m,
            None => {
                return None;
            },
        };
        Some(
            Shaders {
                cubemap_vert,
                cubemap_frag,
                offscreen_cube_vert,
                offscreen_cube_frag,
                vertex,
                fragment,
                depth,
            },
        )
    }
}

} // verus!
