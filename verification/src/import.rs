//! Assembly of world data from a decoded scene document.
//!
//! The interchange file itself is read and decoded outside; this module
//! receives the decoded pieces as plain values — images, material records
//! with texture indices, nodes with attribute arrays — and assembles the
//! meshes, materials and textures the render cache consumes.  Texture
//! names are made unique by suffixing a counter; pixels are widened to
//! four channels; missing normals default to zero vectors; a missing
//! position attribute or mismatched position/normal counts are the typed
//! failures of loading.

use crate::error::Error;
use crate::material::{
    ImageFormat, Material, Texture, TextureSet, FLOAT_BITS_HALF,
};
use crate::mesh::{copy_elements, Mesh, Primitive, VPosNormTex};
use crate::world_render::{contains_name, mesh_name_views};
use vstd::prelude::*;
use vstd::string::*;

verus! {

/// Pixel format of a decoded source image.
#[derive(Debug, Clone, Copy, PartialEq, Eq, Structural)]
pub enum SourceImageFormat {
    R8,
    R8G8,
    R8G8B8,
    R8G8B8A8,
    B8G8R8,
    B8G8R8A8,
    R16,
    R16G16,
    R16G16B16,
    R16G16B16A16,
}

/// The texture format corresponding to each source format.
pub open spec fn format_of(f: SourceImageFormat) -> ImageFormat {
    match f {
        SourceImageFormat::R8 => ImageFormat::R8,
        SourceImageFormat::R8G8 => ImageFormat::R8G8,
        SourceImageFormat::R8G8B8 => ImageFormat::R8G8B8,
        SourceImageFormat::R8G8B8A8 => ImageFormat::R8G8B8A8,
        SourceImageFormat::B8G8R8 => ImageFormat::B8G8R8,
        SourceImageFormat::B8G8R8A8 => ImageFormat::B8G8R8A8,
        SourceImageFormat::R16 => ImageFormat::R16,
        SourceImageFormat::R16G16 => ImageFormat::R16G16,
        SourceImageFormat::R16G16B16 => ImageFormat::R16G16B16,
        SourceImageFormat::R16G16B16A16 => ImageFormat::R16G16B16A16,
    }
}

/// The texture format a source image format maps to.
pub fn format(f: SourceImageFormat) -> (r: ImageFormat)
    ensures
        r == format_of(f),
{
    match f {
        SourceImageFormat::R8 => ImageFormat::R8,
        SourceImageFormat::R8G8 => ImageFormat::R8G8,
        SourceImageFormat::R8G8B8 => ImageFormat::R8G8B8,
        SourceImageFormat::R8G8B8A8 => ImageFormat::R8G8B8A8,
        SourceImageFormat::B8G8R8 => ImageFormat::B8G8R8,
        SourceImageFormat::B8G8R8A8 => ImageFormat::B8G8R8A8,
        SourceImageFormat::R16 => ImageFormat::R16,
        SourceImageFormat::R16G16 => ImageFormat::R16G16,
        SourceImageFormat::R16G16B16 => ImageFormat::R16G16B16,
        SourceImageFormat::R16G16B16A16 => ImageFormat::R16G16B16A16,
    }
}

/// A decoded image joined with its texture's name, as the interchange
/// document carries it.
#[derive(Debug)]
pub struct SourceImage {
    pub name: Option<String>,
    pub format: SourceImageFormat,
    pub width: u32,
    pub height: u32,
    pub pixels: Vec<u8>,
}

/// Three-channel pixels widened to four: every third source byte triple
/// is followed by a full alpha byte.
pub open spec fn rgba_expand(pixels: Seq<u8>) -> Seq<u8> {
    Seq::new(
        (pixels.len() / 3 * 4) as nat,
        |k: int|
            if k % 4 == 3 {
                255u8
            } else {
                pixels[(k / 4) * 3 + (k % 4)]
            },
    )
}

fn expand_rgba(pixels: &Vec<u8>) -> (r: Vec<u8>)
    requires
        pixels@.len() % 3 == 0,
    ensures
        r@ == rgba_expand(pixels@),
{
    let mut r: Vec<u8> = Vec::new();
    let len = pixels.len();
    let n = len / 3;
    let mut i: usize = 0;
    while i < n
        invariant
            len == pixels@.len(),
            pixels@.len() % 3 == 0,
            n == len / 3,
            i <= n,
            r@.len() == 4 * i,
            forall|k: int| 0 <= k < 4 * i ==> r@[k] == rgba_expand(pixels@)[k],
        decreases n - i,
    {
        proof {
            assert(pixels@.len() == 3 * n);
            assert(3 * i + 2 < pixels@.len());
        }
        r.push(pixels[3 * i]);
        r.push(pixels[3 * i + 1]);
        r.push(pixels[3 * i + 2]);
        r.push(255);
        i = i + 1;
    }
    proof {
        assert(r@ =~= rgba_expand(pixels@));
    }
    r
}

/// The character of a decimal digit.
pub open spec fn digit_char(d: nat) -> char {
    if d == 0 {
        '0'
    } else if d == 1 {
        '1'
    } else if d == 2 {
        '2'
    } else if d == 3 {
        '3'
    } else if d == 4 {
        '4'
    } else if d == 5 {
        '5'
    } else if d == 6 {
        '6'
    } else if d == 7 {
        '7'
    } else if d == 8 {
        '8'
    } else {
        '9'
    }
}

/// The decimal digits of `n`, most significant first.
pub open spec fn decimal_digits(n: nat) -> Seq<char>
    decreases n,
{
    if n < 10 {
        seq![digit_char(n)]
    } else {
        decimal_digits(n / 10).push(digit_char(n % 10))
    }
}

fn digit_str(d: u32) -> (r: &'static str)
    requires
        d < 10,
    ensures
        r@ == seq![digit_char(d as nat)],
{
    proof {
        reveal_strlit("0");
        reveal_strlit("1");
        reveal_strlit("2");
        reveal_strlit("3");
        reveal_strlit("4");
        reveal_strlit("5");
        reveal_strlit("6");
        reveal_strlit("7");
        reveal_strlit("8");
        reveal_strlit("9");
    }
    let r = match d {
        0 => "0",
        1 => "1",
        2 => "2",
        3 => "3",
        4 => "4",
        5 => "5",
        6 => "6",
        7 => "7",
        8 => "8",
        _ => "9",
    };
    proof {
        assert(r@ =~= seq![digit_char(d as nat)]);
    }
    r
}

/// The decimal rendering of `n`.
fn u32_digits(n: u32) -> (r: String)
    ensures
        r@ == decimal_digits(n as nat),
    decreases n,
{
    if n < 10 {
        digit_str(n).to_owned()
    } else {
        let mut s = u32_digits(n / 10);
        s.append(digit_str(n % 10));
        proof {
            assert(s@ =~= decimal_digits((n / 10) as nat).push(digit_char((n % 10) as nat)));
        }
        s
    }
}

/// `base` with a counter suffix.
pub open spec fn numbered_name(base: Seq<char>, count: nat) -> Seq<char> {
    base + seq!['_'] + decimal_digits(count)
}

/// The first counter suffix from `count` on, within `fuel` tries, that
/// makes the name fresh; the last candidate if the tries run out.
pub open spec fn search_free(
    base: Seq<char>,
    taken: Seq<Seq<char>>,
    count: nat,
    fuel: nat,
) -> Seq<char>
    decreases fuel,
{
    if fuel == 0 {
        numbered_name(base, count)
    } else if !contains_name(taken, numbered_name(base, count)) {
        numbered_name(base, count)
    } else {
        search_free(base, taken, count + 1, (fuel - 1) as nat)
    }
}

/// The name a texture is assigned: its own if still free, else the first
/// free counter-suffixed variant.
pub open spec fn resolve_free(base: Seq<char>, taken: Seq<Seq<char>>) -> Seq<char> {
    if !contains_name(taken, base) {
        base
    } else {
        search_free(base, taken, 1, taken.len() + 1)
    }
}

/// The base name of a source image: its own, or the unnamed default.
pub open spec fn image_base_name(img: SourceImage) -> Seq<char> {
    match img.name {
        Some(n) => n@,
        None => "Unnamed"@,
    }
}

/// The names the textures of `images` are assigned, in order: each is its
/// base name made fresh against all earlier assignments.
pub open spec fn assigned_names(images: Seq<SourceImage>) -> Seq<Seq<char>>
    decreases images.len(),
{
    if images.len() == 0 {
        Seq::empty()
    } else {
        let prev = assigned_names(images.drop_last());
        prev.push(resolve_free(image_base_name(images.last()), prev))
    }
}

fn name_taken(taken: &Vec<String>, name: &String) -> (r: bool)
    ensures
        r == contains_name(mesh_name_views(taken@), name@),
{
    let n = taken.len();
    let mut i: usize = 0;
    while i < n
        invariant
            n == taken@.len(),
            i <= n,
            forall|j: int| 0 <= j < i ==> taken@[j]@ != name@,
        decreases n - i,
    {
        if taken[i] == *name {
            proof {
                assert(mesh_name_views(taken@)[i as int] == name@);
            }
            return true;
        }
        i = i + 1;
    }
    proof {
        assert(forall|j: int|
            0 <= j < taken@.len() ==> #[trigger] mesh_name_views(taken@)[j] == taken@[j]@);
    }
    false
}

fn numbered(base: &String, count: u32) -> (r: String)
    ensures
        r@ == numbered_name(base@, count as nat),
{
    proof {
        reveal_strlit("_");
    }
    let mut s = base.clone();
    s.append("_");
    let digits = u32_digits(count);
    s.append(digits.as_str());
    proof {
        assert(s@ =~= numbered_name(base@, count as nat));
    }
    s
}

/// A fresh name for `base` against the names already assigned.
fn free_name(base: &String, taken: &Vec<String>) -> (r: String)
    requires
        taken@.len() + 1 < u32::MAX,
    ensures
        r@ == resolve_free(base@, mesh_name_views(taken@)),
{
    if !name_taken(taken, base) {
        return base.clone();
    }
    let ghost tn = mesh_name_views(taken@);
    let total: u32 = (taken.len() as u32) + 1;
    proof {
        assert(total == taken@.len() + 1);
    }
    let mut count: u32 = 1;
    let mut fuel: u32 = total;
    while fuel > 0
        invariant
            count >= 1,
            count + fuel == 1 + total,
            total == taken@.len() + 1,
            total < u32::MAX,
            contains_name(tn, base@),
            search_free(base@, tn, 1, total as nat) == search_free(
                base@,
                tn,
                count as nat,
                fuel as nat,
            ),
            tn == mesh_name_views(taken@),
        decreases fuel,
    {
        let candidate = numbered(base, count);
        if !name_taken(taken, &candidate) {
            return candidate;
        }
        count = count + 1;
        fuel = fuel - 1;
    }
    numbered(base, count)
}

/// `ts` is the texture list built from `images`: one texture per image,
/// in order, with the assigned unique name, the mapped format, and the
/// widened pixels.
pub open spec fn textures_built(ts: Seq<Texture>, images: Seq<SourceImage>) -> bool {
    &&& ts.len() == images.len()
    &&& forall|i: int|
        0 <= i < ts.len() ==> {
            &&& (#[trigger] ts[i]).name@ == assigned_names(images)[i]
            &&& ts[i].format == format_of(images[i].format)
            &&& ts[i].width == images[i].width
            &&& ts[i].height == images[i].height
            &&& ts[i].pixels@ == rgba_expand(images[i].pixels@)
        }
}

/// The textures of a decoded document: pixels widened to four channels,
/// formats mapped, and every texture given a unique name by suffixing a
/// counter to clashing names.
pub fn load_textures(images: &Vec<SourceImage>) -> (r: Vec<Texture>)
    requires
        images@.len() + 1 < u32::MAX,
        forall|i: int| 0 <= i < images@.len() ==> (#[trigger] images@[i]).pixels@.len() % 3 == 0,
    ensures
        textures_built(r@, images@),
{
    let mut textures: Vec<Texture> = Vec::new();
    let mut taken: Vec<String> = Vec::new();
    let n = images.len();
    let mut i: usize = 0;
    while i < n
        invariant
            n == images@.len(),
            n + 1 < u32::MAX,
            i <= n,
            forall|j: int| 0 <= j < n ==> (#[trigger] images@[j]).pixels@.len() % 3 == 0,
            taken@.len() == i,
            mesh_name_views(taken@) == assigned_names(images@.take(i as int)),
            textures@.len() == i,
            forall|j: int|
                0 <= j < i ==> {
                    &&& (#[trigger] textures@[j]).name@ == assigned_names(images@.take(i as int))[j]
                    &&& textures@[j].format == format_of(images@[j].format)
                    &&& textures@[j].width == images@[j].width
                    &&& textures@[j].height == images@[j].height
                    &&& textures@[j].pixels@ == rgba_expand(images@[j].pixels@)
                },
        decreases n - i,
    {
        proof {
            assert(images@.take(i + 1).drop_last() =~= images@.take(i as int));
            assert(images@.take(i + 1).last() == images@[i as int]);
        }
        let img = &images[i];
        let base: String = match &img.name {
            Some(nm) => nm.clone(),
            None => "Unnamed".to_owned(),
        };
        let name = free_name(&base, &taken);
        taken.push(name.clone());
        let pixels = expand_rgba(&img.pixels);
        let f = format(img.format);
        textures.push(Texture { name, format: f, pixels, width: img.width, height: img.height });
        proof {
            assert(mesh_name_views(taken@) =~= assigned_names(images@.take(i as int)).push(
                resolve_free(image_base_name(images@[i as int]), assigned_names(images@.take(i as int))),
            ));
            assert(mesh_name_views(taken@) == assigned_names(images@.take(i + 1)));
            assert forall|j: int| 0 <= j < i + 1 implies {
                &&& (#[trigger] textures@[j]).name@ == assigned_names(images@.take(i + 1))[j]
                &&& textures@[j].format == format_of(images@[j].format)
                &&& textures@[j].width == images@[j].width
                &&& textures@[j].height == images@[j].height
                &&& textures@[j].pixels@ == rgba_expand(images@[j].pixels@)
            } by {
                if j < i {
                    assert(assigned_names(images@.take(i + 1))[j] == mesh_name_views(taken@)[j]);
                    assert(assigned_names(images@.take(i as int))[j] == mesh_name_views(
                        taken@.drop_last(),
                    )[j]);
                    assert(taken@.drop_last()[j] == taken@[j]);
                } else {
                    assert(textures@[j].name@ == mesh_name_views(taken@)[j]);
                }
            }
        }
        i = i + 1;
    }
    proof {
        assert(images@.take(n as int) =~= images@);
    }
    textures
}

/// A decoded material record: factors as raw float patterns and texture
/// references by index into the loaded texture list.
#[derive(Debug)]
pub struct SourceMaterial {
    pub name: Option<String>,
    pub base_color_factor: [u32; 4],
    pub metallic_factor: u32,
    pub roughness_factor: u32,
    pub emissive_factor: [u32; 3],
    pub base_color_texture: Option<usize>,
    pub normal_texture: Option<usize>,
    pub metallic_roughness_texture: Option<usize>,
    pub occlusion_texture: Option<usize>,
}

/// Every texture reference of `s` points into a list of `tlen` textures.
pub open spec fn source_material_refs_in_bounds(s: SourceMaterial, tlen: int) -> bool {
    &&& (s.base_color_texture matches Some(i) ==> i < tlen)
    &&& (s.normal_texture matches Some(i) ==> i < tlen)
    &&& (s.metallic_roughness_texture matches Some(i) ==> i < tlen)
    &&& (s.occlusion_texture matches Some(i) ==> i < tlen)
}

/// A texture reference resolved from an index to the texture's name.
pub open spec fn texture_ref_resolved(
    dst: Option<String>,
    idx: Option<usize>,
    textures: Seq<Texture>,
) -> bool {
    match (dst, idx) {
        (Some(n), Some(i)) => i < textures.len() && n@ == textures[i as int].name@,
        (None, None) => true,
        _ => false,
    }
}

/// `m` is the material built from record `s`: factors copied, the
/// reflectance left at its default, and texture indices resolved to the
/// names of `textures`.
pub open spec fn material_built(m: Material, s: SourceMaterial, textures: Seq<Texture>) -> bool {
    &&& m.name@ == (match s.name {
        Some(n) => n@,
        None => "Unnamed"@,
    })
    &&& m.base_color_factor@ == s.base_color_factor@
    &&& m.metallic_factor == s.metallic_factor
    &&& m.roughness_factor == s.roughness_factor
    &&& m.reflectance == FLOAT_BITS_HALF
    &&& m.emissive_factor@ == s.emissive_factor@
    &&& texture_ref_resolved(m.textures.base_color, s.base_color_texture, textures)
    &&& texture_ref_resolved(m.textures.normal, s.normal_texture, textures)
    &&& texture_ref_resolved(
        m.textures.metallic_roughness,
        s.metallic_roughness_texture,
        textures,
    )
    &&& texture_ref_resolved(m.textures.ao, s.occlusion_texture, textures)
}

/// `ms` is the material list built from `sources` against `textures`.
pub open spec fn materials_built(
    ms: Seq<Material>,
    sources: Seq<SourceMaterial>,
    textures: Seq<Texture>,
) -> bool {
    &&& ms.len() == sources.len()
    &&& forall|i: int|
        0 <= i < ms.len() ==> material_built(#[trigger] ms[i], sources[i], textures)
}

fn resolve_texture_ref(idx: &Option<usize>, textures: &Vec<Texture>) -> (r: Option<String>)
    requires
        *idx matches Some(i) ==> i < textures@.len(),
    ensures
        texture_ref_resolved(r, *idx, textures@),
{
    match idx {
        Some(i) => Some(textures[*i].name.clone()),
        None => None,
    }
}

/// The materials of a decoded document, in order: factors carried over,
/// texture indices replaced by the loaded textures' names.
pub fn load_materials(sources: &Vec<SourceMaterial>, textures: &Vec<Texture>) -> (r: Vec<Material>)
    requires
        forall|i: int|
            0 <= i < sources@.len() ==> source_material_refs_in_bounds(
                #[trigger] sources@[i],
                textures@.len() as int,
            ),
    ensures
        materials_built(r@, sources@, textures@),
{
    let mut r: Vec<Material> = Vec::new();
    let n = sources.len();
    let mut i: usize = 0;
    while i < n
        invariant
            n == sources@.len(),
            i <= n,
            forall|j: int|
                0 <= j < n ==> source_material_refs_in_bounds(
                    #[trigger] sources@[j],
                    textures@.len() as int,
                ),
            r@.len() == i,
            forall|j: int|
                0 <= j < i ==> material_built(#[trigger] r@[j], sources@[j], textures@),
        decreases n - i,
    {
        let s = &sources[i];
        let name: String = match &s.name {
            Some(nm) => nm.clone(),
            None => "Unnamed".to_owned(),
        };
        let m = Material {
            name,
            base_color_factor: s.base_color_factor,
            metallic_factor: s.metallic_factor,
            roughness_factor: s.roughness_factor,
            reflectance: FLOAT_BITS_HALF,
            emissive_factor: s.emissive_factor,
            textures: TextureSet {
                base_color: resolve_texture_ref(&s.base_color_texture, textures),
                normal: resolve_texture_ref(&s.normal_texture, textures),
                metallic_roughness: resolve_texture_ref(&s.metallic_roughness_texture, textures),
                ao: resolve_texture_ref(&s.occlusion_texture, textures),
            },
        };
        r.push(m);
        i = i + 1;
    }
    r
}

/// A decoded primitive: attribute arrays (components as raw float
/// patterns), an index list, and a material reference by index.
#[derive(Debug)]
pub struct SourcePrimitive {
    pub positions: Option<Vec<[u32; 3]>>,
    pub normals: Option<Vec<[u32; 3]>>,
    pub tex_coords: Option<Vec<[u32; 2]>>,
    pub indices: Vec<u32>,
    pub material_index: Option<usize>,
}

/// A decoded node carrying a mesh.
#[derive(Debug)]
pub struct SourceMesh {
    pub name: Option<String>,
    pub primitives: Vec<SourcePrimitive>,
}

/// A primitive can be assembled: it has positions, and its normals, when
/// present, match them in number.
pub open spec fn prim_ok(p: SourcePrimitive) -> bool {
    &&& p.positions is Some
    &&& (p.normals matches Some(ns) ==> ns@.len() == p.positions->0@.len())
}

/// The failure a bad primitive reports: a missing position attribute
/// before a count mismatch.
pub open spec fn prim_error_of(p: SourcePrimitive) -> Error {
    if p.positions is None {
        Error::NoVerticesFound
    } else {
        Error::MismatchedVerticesNormals
    }
}

/// Every primitive of `m` can be assembled.
pub open spec fn mesh_ok(m: SourceMesh) -> bool {
    forall|k: int| 0 <= k < m.primitives@.len() ==> prim_ok(#[trigger] m.primitives@[k])
}

/// Every material reference of `m` points into a list of `mlen`
/// materials.
pub open spec fn source_mesh_refs_in_bounds(m: SourceMesh, mlen: int) -> bool {
    forall|k: int|
        0 <= k < m.primitives@.len() ==> ((#[trigger] m.primitives@[k]).material_index matches Some(
            mi,
        ) ==> mi < mlen)
}

/// `vs` interleaves the primitive's attributes: one vertex per position
/// that also has a texture coordinate, with absent normals defaulting to
/// zero vectors.
pub open spec fn vertices_built(vs: Seq<VPosNormTex>, p: SourcePrimitive) -> bool
    recommends
        prim_ok(p),
{
    let ps = p.positions->0@;
    let cs = (match p.tex_coords {
        Some(c) => c@,
        None => Seq::<[u32; 2]>::empty(),
    });
    let vlen = if ps.len() <= cs.len() {
        ps.len()
    } else {
        cs.len()
    };
    &&& vs.len() == vlen
    &&& forall|t: int|
        0 <= t < vs.len() ==> {
            &&& (#[trigger] vs[t]).position == ps[t]
            &&& vs[t].uv_coord == cs[t]
            &&& (match p.normals {
                Some(ns) => vs[t].normal == ns@[t],
                None => vs[t].normal@ == seq![0u32, 0u32, 0u32],
            })
        }
}

/// `out` is the primitive assembled from `p` at slot `k` of its mesh.
pub open spec fn prim_built(out: Primitive, p: SourcePrimitive, k: int, materials: Seq<Material>) -> bool
    recommends
        prim_ok(p),
{
    &&& out.index == k
    &&& vertices_built(out.vertices@, p)
    &&& out.indices@ == p.indices@
    &&& (match (out.material_name, p.material_index) {
        (Some(n), Some(mi)) => mi < materials.len() && n@ == materials[mi as int].name@,
        (None, None) => true,
        _ => false,
    })
}

/// `out` is the mesh assembled from `src`.
pub open spec fn mesh_built(out: Mesh, src: SourceMesh, materials: Seq<Material>) -> bool
    recommends
        mesh_ok(src),
{
    &&& out.name@ == (match src.name {
        Some(n) => n@,
        None => "Unnamed"@,
    })
    &&& out.primitives@.len() == src.primitives@.len()
    &&& forall|k: int|
        0 <= k < out.primitives@.len() ==> prim_built(
            #[trigger] out.primitives@[k],
            src.primitives@[k],
            k,
            materials,
        )
}

/// Assemble one primitive.  `None` when the primitive is bad; the caller
/// reports `prim_error_of`.
fn build_primitive(p: &SourcePrimitive, k: usize, materials: &Vec<Material>) -> (r: Option<
    Primitive,
>)
    requires
        p.material_index matches Some(mi) ==> mi < materials@.len(),
    ensures
        r is Some <==> prim_ok(*p),
        r matches Some(out) ==> prim_built(out, *p, k as int, materials@),
{
    let ps = match &p.positions {
        Some(v) => v,
        None => {
            return None;
        },
    };
    match &p.normals {
        Some(ns) => if ns.len() != ps.len() {
            return None;
        },
        None => {},
    }
    let cs_len = match &p.tex_coords {
        Some(c) => c.len(),
        None => 0,
    };
    let vlen = if ps.len() <= cs_len {
        ps.len()
    } else {
        cs_len
    };

    let mut vertices: Vec<VPosNormTex> = Vec::new();
    let mut t: usize = 0;
    while t < vlen
        invariant
            prim_ok(*p),
            ps == p.positions->0,
            cs_len == (match p.tex_coords {
                Some(c) => c@.len(),
                None => 0,
            }),
            vlen <= ps@.len(),
            vlen <= cs_len,
            vlen == (if ps@.len() <= cs_len {
                ps@.len() as int
            } else {
                cs_len as int
            }),
            t <= vlen,
            vertices@.len() == t,
            forall|u: int|
                0 <= u < t ==> {
                    &&& (#[trigger] vertices@[u]).position == ps@[u]
                    &&& vertices@[u].uv_coord == (match p.tex_coords {
                        Some(c) => c@[u],
                        None => vertices@[u].uv_coord,
                    })
                    &&& (match p.normals {
                        Some(ns) => vertices@[u].normal == ns@[u],
                        None => vertices@[u].normal@ == seq![0u32, 0u32, 0u32],
                    })
                },
        decreases vlen - t,
    {
        let position = ps[t];
        let normal: [u32; 3] = match &p.normals {
            Some(ns) => ns[t],
            None => [0, 0, 0],
        };
        let uv_coord: [u32; 2] = match &p.tex_coords {
            Some(c) => c[t],
            None => unreached(),
        };
        let v = VPosNormTex { position, normal, uv_coord };
        proof {
            if p.normals is None {
                assert(v.normal@ =~= seq![0u32, 0u32, 0u32]);
            }
        }
        vertices.push(v);
        t = t + 1;
    }

    let indices = copy_elements(&p.indices);
    let material_name = match &p.material_index {
        Some(mi) => Some(materials[*mi].name.clone()),
        None => None,
    };
    Some(Primitive { index: k, material_name, vertices, indices })
}

/// The meshes of a decoded document, one per node that carries a mesh.
/// Fails with the first bad primitive's error — a missing position
/// attribute or mismatched position/normal counts — leaving no partial
/// result behind.
pub fn load_nodes(nodes: &Vec<SourceMesh>, materials: &Vec<Material>) -> (r: Result<
    Vec<Mesh>,
    Error,
>)
    requires
        forall|j: int|
            0 <= j < nodes@.len() ==> source_mesh_refs_in_bounds(
                #[trigger] nodes@[j],
                materials@.len() as int,
            ),
    ensures
        (r is Ok <==> forall|j: int| 0 <= j < nodes@.len() ==> mesh_ok(#[trigger] nodes@[j])),
        r matches Ok(ms) ==> ms@.len() == nodes@.len() && forall|j: int|
            0 <= j < ms@.len() ==> mesh_built(#[trigger] ms@[j], nodes@[j], materials@),
        r matches Err(e) ==> exists|j: int, k: int|
            {
                &&& 0 <= j < nodes@.len()
                &&& 0 <= k < nodes@[j].primitives@.len()
                &&& !prim_ok(#[trigger] nodes@[j].primitives@[k])
                &&& e == prim_error_of(nodes@[j].primitives@[k])
            },
{
    let mut meshes: Vec<Mesh> = Vec::new();
    let n = nodes.len();
    let mut j: usize = 0;
    while j < n
        invariant
            n == nodes@.len(),
            j <= n,
            forall|j2: int|
                0 <= j2 < nodes@.len() ==> source_mesh_refs_in_bounds(
                    #[trigger] nodes@[j2],
                    materials@.len() as int,
                ),
            meshes@.len() == j,
            forall|j2: int| 0 <= j2 < j ==> mesh_ok(#[trigger] nodes@[j2]),
            forall|j2: int|
                0 <= j2 < j ==> mesh_built(#[trigger] meshes@[j2], nodes@[j2], materials@),
        decreases n - j,
    {
        let node = &nodes[j];
        let name: String = match &node.name {
            Some(nm) => nm.clone(),
            None => "Unnamed".to_owned(),
        };
        let mut mesh = Mesh { name, primitives: Vec::new() };
        let pn = node.primitives.len();
        let mut k: usize = 0;
        while k < pn
            invariant
                pn == node.primitives@.len(),
                k <= pn,
                node == nodes@[j as int],
                j < nodes@.len(),
                source_mesh_refs_in_bounds(*node, materials@.len() as int),
                mesh.name@ == (match nodes@[j as int].name {
                    Some(nm) => nm@,
                    None => "Unnamed"@,
                }),
                mesh.primitives@.len() == k,
                forall|k2: int| 0 <= k2 < k ==> prim_ok(#[trigger] node.primitives@[k2]),
                forall|k2: int|
                    0 <= k2 < k ==> prim_built(
                        #[trigger] mesh.primitives@[k2],
                        node.primitives@[k2],
                        k2,
                        materials@,
                    ),
            decreases pn - k,
        {
            let p = &node.primitives[k];
            match build_primitive(p, k, materials) {
                Some(prim) => {
                    mesh.primitives.push(prim);
                },
                None => {
                    let e = if p.positions.is_none() {
                        Error::NoVerticesFound
                    } else {
                        Error::MismatchedVerticesNormals
                    };
                    proof {
                        assert(!prim_ok(nodes@[j as int].primitives@[k as int]));
                        assert(e == prim_error_of(nodes@[j as int].primitives@[k as int]));
                    }
                    return Err(e);
                },
            }
            k = k + 1;
        }
        meshes.push(mesh);
        j = j + 1;
    }
    Ok(meshes)
}

/// Assemble a whole decoded document: its textures, its materials
/// resolved against them, and its meshes.  Fails exactly when some
/// primitive is bad, leaving no partial result behind.
pub fn load(
    images: &Vec<SourceImage>,
    material_sources: &Vec<SourceMaterial>,
    nodes: &Vec<SourceMesh>,
) -> (r: Result<(Vec<Mesh>, Vec<Material>, Vec<Texture>), Error>)
    requires
        images@.len() + 1 < u32::MAX,
        forall|i: int| 0 <= i < images@.len() ==> (#[trigger] images@[i]).pixels@.len() % 3 == 0,
        forall|i: int|
            0 <= i < material_sources@.len() ==> source_material_refs_in_bounds(
                #[trigger] material_sources@[i],
                images@.len() as int,
            ),
        forall|j: int|
            0 <= j < nodes@.len() ==> source_mesh_refs_in_bounds(
                #[trigger] nodes@[j],
                material_sources@.len() as int,
            ),
    ensures
        (r is Ok <==> forall|j: int| 0 <= j < nodes@.len() ==> mesh_ok(#[trigger] nodes@[j])),
        r matches Ok(out) ==> {
            &&& textures_built(out.2@, images@)
            &&& materials_built(out.1@, material_sources@, out.2@)
            &&& out.0@.len() == nodes@.len()
            &&& forall|j: int|
                0 <= j < out.0@.len() ==> mesh_built(#[trigger] out.0@[j], nodes@[j], out.1@)
        },
        r matches Err(e) ==> exists|j: int, k: int|
            {
                &&& 0 <= j < nodes@.len()
                &&& 0 <= k < nodes@[j].primitives@.len()
                &&& !prim_ok(#[trigger] nodes@[j].primitives@[k])
                &&& e == prim_error_of(nodes@[j].primitives@[k])
            },
{
    let textures = load_textures(images);
    let materials = load_materials(material_sources, &textures);
    match load_nodes(nodes, &materials) {
        Ok(meshes) => Ok((meshes, materials, textures)),
        Err(e) => Err(e),
    }
}

} // verus!
