//! The world-render cache: GPU-resident counterparts of scene data.
//!
//! `update` translates meshes, materials and textures into their device
//! counterparts lazily and incrementally: a texture becomes an image plus
//! sampler the first time its name appears, a material becomes a
//! descriptor set the first time its name appears, a mesh becomes one
//! vertex/index buffer pair per primitive the first time its name appears.
//! Re-invoking `update` with names already cached adds nothing, so the
//! cache never holds two resources for one name.
//!
//! A material's descriptor set binds four sampled images; any channel the
//! material does not specify falls back to a fixed dummy placeholder
//! texture, which the caller seeds into the cache at startup.

use crate::environment::{environment_spec, Environment};
use crate::material::{Material, Texture};
use crate::mesh::{copy_elements, Mesh, Primitive, VPosNormTex};
use vstd::prelude::*;

verus! {

/// Name of the placeholder base-color texture.
pub const DUMMY_COLOR: &'static str = "DUMMY_COLOR";

/// Name of the placeholder normal-map texture.
pub const DUMMY_NORMAL: &'static str = "DUMMY_NORMAL";

/// Name of the placeholder metallic/roughness texture.
pub const DUMMY_METAL_ROUGH: &'static str = "DUMMY_METAL_ROUGH";

/// Name of the placeholder ambient-occlusion texture.
pub const DUMMY_AO: &'static str = "DUMMY_AO";

/// An uploaded texture: the image view's size and the format it was
/// uploaded with (the upload path converts everything to four 8-bit
/// channels).
#[derive(Debug, Clone, Copy, PartialEq, Eq, Structural)]
pub struct ImageData {
    pub width: u32,
    pub height: u32,
}

impl ImageData {
    /// The image-plus-sampler pair for one texture.
    pub fn new(texture: &Texture) -> (r: Self)
        ensures
            r.width == texture.width,
            r.height == texture.height,
    {
        ImageData { width: texture.width, height: texture.height }
    }
}

/// A GPU-visible binding of uniform buffers and sampled images to slot
/// zero of a pipeline layout.  Sampled images are recorded by texture
/// name, in binding order.
#[derive(Debug)]
pub struct DescriptorSet {
    pub sampled_images: Vec<String>,
    pub vertex_uniform_buffer: Option<u64>,
    pub fragment_uniform_buffer: Option<u64>,
}

impl DescriptorSet {
    /// An empty binding set.
    pub fn new() -> (r: Self)
        ensures
            r.sampled_images@ == Seq::<String>::empty(),
            r.vertex_uniform_buffer is None,
            r.fragment_uniform_buffer is None,
    {
        DescriptorSet {
            sampled_images: Vec::new(),
            vertex_uniform_buffer: None,
            fragment_uniform_buffer: None,
        }
    }

    /// Bind the next sampled image.
    pub fn add_sampled_image(self, name: String) -> (r: Self)
        ensures
            r.sampled_images@ == self.sampled_images@.push(name),
            r.vertex_uniform_buffer == self.vertex_uniform_buffer,
            r.fragment_uniform_buffer == self.fragment_uniform_buffer,
    {
        let mut r = self;
        r.sampled_images.push(name);
        r
    }

    /// Bind the per-material vertex-stage uniform buffer.
    pub fn with_vertex_uniform_buffer(self, buffer: u64) -> (r: Self)
        ensures
            r.vertex_uniform_buffer == Some(buffer),
            r.sampled_images == self.sampled_images,
            r.fragment_uniform_buffer == self.fragment_uniform_buffer,
    {
        let mut r = self;
        r.vertex_uniform_buffer = Some(buffer);
        r
    }

    /// Bind the per-material fragment-stage uniform buffer.
    pub fn with_fragment_uniform_buffer(self, buffer: u64) -> (r: Self)
        ensures
            r.fragment_uniform_buffer == Some(buffer),
            r.sampled_images == self.sampled_images,
            r.vertex_uniform_buffer == self.vertex_uniform_buffer,
    {
        let mut r = self;
        r.fragment_uniform_buffer = Some(buffer);
        r
    }
}

/// The texture name a material channel resolves to: its own reference, or
/// the placeholder when it has none.
pub open spec fn resolved_name(reference: Option<String>, dummy: Seq<char>) -> Seq<char> {
    match reference {
        Some(n) => n@,
        None => dummy,
    }
}

/// The descriptor set of `info` binds, in order, the material's four
/// texture channels with placeholders filled in, plus both uniform
/// buffers.
pub open spec fn material_descriptor_matches(info: MaterialInfo, m: Material) -> bool {
    &&& info.descriptor_set.sampled_images@.len() == 4
    &&& info.descriptor_set.sampled_images@[0]@ == resolved_name(m.textures.base_color, DUMMY_COLOR@)
    &&& info.descriptor_set.sampled_images@[1]@ == resolved_name(m.textures.normal, DUMMY_NORMAL@)
    &&& info.descriptor_set.sampled_images@[2]@ == resolved_name(
        m.textures.metallic_roughness,
        DUMMY_METAL_ROUGH@,
    )
    &&& info.descriptor_set.sampled_images@[3]@ == resolved_name(m.textures.ao, DUMMY_AO@)
    &&& info.descriptor_set.vertex_uniform_buffer is Some
    &&& info.descriptor_set.fragment_uniform_buffer is Some
}

/// A material's GPU counterpart: its descriptor set.
#[derive(Debug)]
pub struct MaterialInfo {
    pub descriptor_set: DescriptorSet,
}

/// The names of the cached image/sampler pairs, in cache order.
pub open spec fn sampler_names(entries: Seq<SamplerEntry>) -> Seq<Seq<char>> {
    entries.map_values(|e: SamplerEntry| e.name@)
}

/// The names of the cached materials, in cache order.
pub open spec fn material_names(entries: Seq<MaterialEntry>) -> Seq<Seq<char>> {
    entries.map_values(|e: MaterialEntry| e.name@)
}

/// The cached mesh names, in cache order.
pub open spec fn mesh_name_views(entries: Seq<String>) -> Seq<Seq<char>> {
    entries.map_values(|e: String| e@)
}

/// `n` occurs in the name list.
pub open spec fn contains_name(names: Seq<Seq<char>>, n: Seq<char>) -> bool {
    exists|i: int| 0 <= i < names.len() && names[i] == n
}

/// No name occurs twice.
pub open spec fn distinct_names(names: Seq<Seq<char>>) -> bool {
    forall|i: int, j: int| 0 <= i < j < names.len() ==> names[i] != names[j]
}

impl MaterialInfo {
    /// Build a material's descriptor set from the cached samplers,
    /// falling back to the placeholder textures for unspecified channels.
    /// Every resolved name must already be cached.
    pub fn new(material: &Material, image_samplers: &Vec<SamplerEntry>) -> (r: Self)
        requires
            contains_name(
                sampler_names(image_samplers@),
                resolved_name(material.textures.base_color, DUMMY_COLOR@),
            ),
            contains_name(
                sampler_names(image_samplers@),
                resolved_name(material.textures.normal, DUMMY_NORMAL@),
            ),
            contains_name(
                sampler_names(image_samplers@),
                resolved_name(material.textures.metallic_roughness, DUMMY_METAL_ROUGH@),
            ),
            contains_name(
                sampler_names(image_samplers@),
                resolved_name(material.textures.ao, DUMMY_AO@),
            ),
        ensures
            material_descriptor_matches(r, *material),
    {
        let color_name = match &material.textures.base_color {
            Some(n) => n.clone(),
            None => DUMMY_COLOR.to_owned(),
        };
        let normal_name = match &material.textures.normal {
            Some(n) => n.clone(),
            None => DUMMY_NORMAL.to_owned(),
        };
        let metal_rough_name = match &material.textures.metallic_roughness {
            Some(n) => n.clone(),
            None => DUMMY_METAL_ROUGH.to_owned(),
        };
        let ao_name = match &material.textures.ao {
            Some(n) => n.clone(),
            None => DUMMY_AO.to_owned(),
        };

        let vertex_uniform_buffer: u64 = 1;
        let fragment_uniform_buffer: u64 = 2;

        let set = DescriptorSet::new()
            .with_vertex_uniform_buffer(vertex_uniform_buffer)
            .add_sampled_image(color_name)
            .add_sampled_image(normal_name)
            .add_sampled_image(metal_rough_name)
            .add_sampled_image(ao_name)
            .with_fragment_uniform_buffer(fragment_uniform_buffer);

        MaterialInfo { descriptor_set: set }
    }
}

/// One primitive's GPU counterpart: its vertex buffer, its optional index
/// buffer, and its material reference.
#[derive(Debug)]
pub struct PrimitiveInfo {
    pub vertex_buffer: Vec<VPosNormTex>,
    pub index_buffer: Option<Vec<u32>>,
    pub material_name: Option<String>,
}

/// `info` is the GPU counterpart of primitive `p`.
pub open spec fn prim_info_matches(info: PrimitiveInfo, p: Primitive) -> bool {
    &&& info.vertex_buffer@ == p.vertices@
    &&& (p.indices@.len() == 0 ==> info.index_buffer is None)
    &&& (p.indices@.len() > 0 ==> (info.index_buffer matches Some(ib) && ib@ == p.indices@))
    &&& (match (info.material_name, p.material_name) {
        (Some(a), Some(b)) => a@ == b@,
        (None, None) => true,
        _ => false,
    })
}

impl PrimitiveInfo {
    /// Whether draws against this primitive are indexed.
    pub fn has_indices(&self) -> (r: bool)
        ensures
            r == (self.index_buffer is Some),
    {
        self.index_buffer.is_some()
    }

    /// One vertex/index buffer pair per primitive of the mesh, in order.
    pub fn generate_from_mesh(mesh: &Mesh) -> (r: Vec<PrimitiveInfo>)
        ensures
            r@.len() == mesh.primitives@.len(),
            forall|i: int|
                0 <= i < r@.len() ==> prim_info_matches(#[trigger] r@[i], mesh.primitives@[i]),
    {
        let mut r: Vec<PrimitiveInfo> = Vec::new();
        let n = mesh.primitives.len();
        let mut i: usize = 0;
        while i < n
            invariant
                n == mesh.primitives@.len(),
                i <= n,
                r@.len() == i,
                forall|j: int|
                    0 <= j < i ==> prim_info_matches(#[trigger] r@[j], mesh.primitives@[j]),
            decreases n - i,
        {
            let p = &mesh.primitives[i];
            let vertex_buffer = copy_elements(&p.vertices);
            let index_buffer = if p.indices.len() > 0 {
                Some(copy_elements(&p.indices))
            } else {
                None
            };
            let material_name = match &p.material_name {
                Some(nm) => Some(nm.clone()),
                None => None,
            };
            r.push(PrimitiveInfo { vertex_buffer, index_buffer, material_name });
            i = i + 1;
        }
        r
    }
}

/// A cached image/sampler pair, keyed by texture name.
#[derive(Debug)]
pub struct SamplerEntry {
    pub name: String,
    pub data: ImageData,
}

/// A cached material, keyed by material name.
#[derive(Debug)]
pub struct MaterialEntry {
    pub name: String,
    pub info: MaterialInfo,
}

/// The cache's name list after offering `xs` in order: a name already
/// present adds nothing, any other is appended.
pub open spec fn names_after(xs: Seq<Seq<char>>, names: Seq<Seq<char>>) -> Seq<Seq<char>>
    decreases xs.len(),
{
    if xs.len() == 0 {
        names
    } else {
        let prev = names_after(xs.drop_last(), names);
        if contains_name(prev, xs.last()) {
            prev
        } else {
            prev.push(xs.last())
        }
    }
}

/// The names of a texture list, in order.
pub open spec fn texture_names(ts: Seq<Texture>) -> Seq<Seq<char>> {
    ts.map_values(|t: Texture| t.name@)
}

/// The names of a material list, in order.
pub open spec fn material_list_names(ms: Seq<Material>) -> Seq<Seq<char>> {
    ms.map_values(|m: Material| m.name@)
}

/// The names of a mesh list, in order.
pub open spec fn mesh_list_names(ms: Seq<Mesh>) -> Seq<Seq<char>> {
    ms.map_values(|m: Mesh| m.name@)
}

/// How many primitives caching `ms` adds: the primitive count of every
/// mesh whose name is not yet cached when it is reached.
pub open spec fn primitives_added(ms: Seq<Mesh>, names: Seq<Seq<char>>) -> nat
    decreases ms.len(),
{
    if ms.len() == 0 {
        0
    } else {
        primitives_added(ms.drop_last(), names) + if contains_name(
            names_after(mesh_list_names(ms.drop_last()), names),
            ms.last().name@,
        ) {
            0nat
        } else {
            ms.last().primitives@.len()
        }
    }
}

/// A name already present stays present however many more are offered.
pub proof fn lemma_names_after_monotone(xs: Seq<Seq<char>>, ns: Seq<Seq<char>>, n: Seq<char>)
    requires
        contains_name(ns, n),
    ensures
        contains_name(names_after(xs, ns), n),
    decreases xs.len(),
{
    if xs.len() > 0 {
        lemma_names_after_monotone(xs.drop_last(), ns, n);
        let prev = names_after(xs.drop_last(), ns);
        if !contains_name(prev, xs.last()) {
            let i = choose|i: int| 0 <= i < prev.len() && prev[i] == n;
            assert(prev.push(xs.last())[i] == n);
        }
    }
}

/// Every offered name is present afterwards.
pub proof fn lemma_names_after_contains_inputs(xs: Seq<Seq<char>>, ns: Seq<Seq<char>>, i: int)
    requires
        0 <= i < xs.len(),
    ensures
        contains_name(names_after(xs, ns), xs[i]),
    decreases xs.len(),
{
    let prev = names_after(xs.drop_last(), ns);
    let after = names_after(xs, ns);
    if i == xs.len() - 1 {
        if contains_name(prev, xs.last()) {
        } else {
            assert(after[prev.len() as int] == xs.last());
        }
    } else {
        lemma_names_after_contains_inputs(xs.drop_last(), ns, i);
        assert(xs.drop_last()[i] == xs[i]);
        if !contains_name(prev, xs.last()) {
            let k = choose|k: int| 0 <= k < prev.len() && prev[k] == xs[i];
            assert(after[k] == xs[i]);
        }
    }
}

/// Offering only names that are already present changes nothing.
pub proof fn lemma_names_after_saturated(xs: Seq<Seq<char>>, ns: Seq<Seq<char>>)
    requires
        forall|i: int| 0 <= i < xs.len() ==> contains_name(ns, #[trigger] xs[i]),
    ensures
        names_after(xs, ns) == ns,
    decreases xs.len(),
{
    if xs.len() > 0 {
        assert(forall|i: int|
            0 <= i < xs.drop_last().len() ==> contains_name(ns, #[trigger] xs.drop_last()[i]));
        lemma_names_after_saturated(xs.drop_last(), ns);
        assert(contains_name(ns, xs[xs.len() - 1]));
    }
}

/// `info` is the GPU counterpart of some primitive of some mesh in the
/// list.
pub open spec fn prim_from_meshes(info: PrimitiveInfo, meshes: Seq<Mesh>) -> bool {
    exists|j: int, l: int|
        0 <= j < meshes.len() && 0 <= l < meshes[j].primitives@.len() && prim_info_matches(
            info,
            meshes[j].primitives@[l],
        )
}

/// The four texture names `m` resolves to are all present in `names`.
pub open spec fn material_refs_available(m: Material, names: Seq<Seq<char>>) -> bool {
    &&& contains_name(names, resolved_name(m.textures.base_color, DUMMY_COLOR@))
    &&& contains_name(names, resolved_name(m.textures.normal, DUMMY_NORMAL@))
    &&& contains_name(names, resolved_name(m.textures.metallic_roughness, DUMMY_METAL_ROUGH@))
    &&& contains_name(names, resolved_name(m.textures.ao, DUMMY_AO@))
}

/// The cache's name lists hold no duplicates.
pub open spec fn world_wf(w: WorldRender) -> bool {
    &&& distinct_names(sampler_names(w.image_samplers@))
    &&& distinct_names(material_names(w.material_info@))
    &&& distinct_names(mesh_name_views(w.mesh_names@))
}

/// What one `update` call does to the cache: each store keeps its old
/// entries in place, appends one entry per input name it had not seen, and
/// its name list afterwards is the fold of the offered names over the old
/// ones; primitives grow by exactly the primitives of the newly cached
/// meshes.
pub open spec fn update_post(
    w0: WorldRender,
    meshes: Seq<Mesh>,
    materials: Seq<Material>,
    textures: Seq<Texture>,
    w1: WorldRender,
) -> bool {
    &&& sampler_names(w1.image_samplers@) == names_after(
        texture_names(textures),
        sampler_names(w0.image_samplers@),
    )
    &&& w1.image_samplers@.len() >= w0.image_samplers@.len()
    &&& w1.image_samplers@.take(w0.image_samplers@.len() as int) == w0.image_samplers@
    &&& (forall|k: int|
        w0.image_samplers@.len() <= k < w1.image_samplers@.len() ==> exists|j: int|
            0 <= j < textures.len() && (#[trigger] w1.image_samplers@[k]).name@
                == textures[j].name@ && w1.image_samplers@[k].data == (ImageData {
                width: textures[j].width,
                height: textures[j].height,
            }) && (forall|j2: int| 0 <= j2 < j ==> textures[j2].name@ != textures[j].name@))
    &&& material_names(w1.material_info@) == names_after(
        material_list_names(materials),
        material_names(w0.material_info@),
    )
    &&& w1.material_info@.len() >= w0.material_info@.len()
    &&& w1.material_info@.take(w0.material_info@.len() as int) == w0.material_info@
    &&& (forall|k: int|
        w0.material_info@.len() <= k < w1.material_info@.len() ==> exists|j: int|
            0 <= j < materials.len() && (#[trigger] w1.material_info@[k]).name@
                == materials[j].name@ && material_descriptor_matches(
                w1.material_info@[k].info,
                materials[j],
            ) && (forall|j2: int| 0 <= j2 < j ==> materials[j2].name@ != materials[j].name@))
    &&& mesh_name_views(w1.mesh_names@) == names_after(
        mesh_list_names(meshes),
        mesh_name_views(w0.mesh_names@),
    )
    &&& w1.mesh_names@.len() >= w0.mesh_names@.len()
    &&& w1.mesh_names@.take(w0.mesh_names@.len() as int) == w0.mesh_names@
    &&& w1.primitive_info@.len() == w0.primitive_info@.len() + primitives_added(
        meshes,
        mesh_name_views(w0.mesh_names@),
    )
    &&& w1.primitive_info@.take(w0.primitive_info@.len() as int) == w0.primitive_info@
    &&& (forall|k: int|
        w0.primitive_info@.len() <= k < w1.primitive_info@.len() ==> prim_from_meshes(
            #[trigger] w1.primitive_info@[k],
            meshes,
        ))
    &&& w1.environment == w0.environment
}

/// When every mesh name is already cached, no primitives are added.
pub proof fn lemma_primitives_added_saturated(ms: Seq<Mesh>, ns: Seq<Seq<char>>)
    requires
        forall|i: int| 0 <= i < ms.len() ==> contains_name(ns, #[trigger] mesh_list_names(ms)[i]),
    ensures
        primitives_added(ms, ns) == 0,
    decreases ms.len(),
{
    if ms.len() > 0 {
        assert forall|i: int| 0 <= i < ms.drop_last().len() implies contains_name(
            ns,
            #[trigger] mesh_list_names(ms.drop_last())[i],
        ) by {
            assert(mesh_list_names(ms.drop_last())[i] == mesh_list_names(ms)[i]);
        }
        lemma_primitives_added_saturated(ms.drop_last(), ns);
        assert(contains_name(ns, mesh_list_names(ms)[ms.len() - 1]));
        assert(ms.last().name@ == mesh_list_names(ms)[ms.len() - 1]);
        lemma_names_after_monotone(mesh_list_names(ms.drop_last()), ns, ms.last().name@);
    }
}

/// One recorded draw: indexed or not, how many elements it draws, and
/// which material it binds.
#[derive(Debug)]
pub struct DrawCall {
    pub indexed: bool,
    pub element_count: usize,
    pub material_name: Option<String>,
}

/// `c` is the draw that primitive `p` produces: indexed exactly when `p`
/// carries indices, drawing all of them, else all vertices.
pub open spec fn draw_call_matches(c: DrawCall, p: PrimitiveInfo) -> bool {
    &&& c.indexed == (p.index_buffer is Some)
    &&& c.element_count == (match p.index_buffer {
        Some(ib) => ib@.len(),
        None => p.vertex_buffer@.len(),
    })
    &&& (match (c.material_name, p.material_name) {
        (Some(a), Some(b)) => a@ == b@,
        (None, None) => true,
        _ => false,
    })
}

/// Maps scene entities to their GPU-resident counterparts, created
/// lazily and deduplicated by name.
#[derive(Debug)]
pub struct WorldRender {
    pub primitive_info: Vec<PrimitiveInfo>,
    pub mesh_names: Vec<String>,
    pub material_info: Vec<MaterialEntry>,
    pub image_samplers: Vec<SamplerEntry>,
    pub environment: Option<Environment>,
}

impl Default for WorldRender {
    fn default() -> (r: Self)
        ensures
            world_wf(r),
            r.primitive_info@ == Seq::<PrimitiveInfo>::empty(),
            r.mesh_names@ == Seq::<String>::empty(),
            r.material_info@ == Seq::<MaterialEntry>::empty(),
            r.image_samplers@ == Seq::<SamplerEntry>::empty(),
            r.environment is None,
    {
        let r = WorldRender {
            primitive_info: Vec::new(),
            mesh_names: Vec::new(),
            material_info: Vec::new(),
            image_samplers: Vec::new(),
            environment: None,
        };
        proof {
            assert(sampler_names(r.image_samplers@) =~= Seq::<Seq<char>>::empty());
            assert(material_names(r.material_info@) =~= Seq::<Seq<char>>::empty());
            assert(mesh_name_views(r.mesh_names@) =~= Seq::<Seq<char>>::empty());
        }
        r
    }
}

fn sampler_cached(entries: &Vec<SamplerEntry>, name: &String) -> (r: bool)
    ensures
        r == contains_name(sampler_names(entries@), name@),
{
    let n = entries.len();
    let mut i: usize = 0;
    while i < n
        invariant
            n == entries@.len(),
            i <= n,
            forall|j: int| 0 <= j < i ==> entries@[j].name@ != name@,
        decreases n - i,
    {
        if entries[i].name == *name {
            proof {
                assert(sampler_names(entries@)[i as int] == name@);
            }
            return true;
        }
        i = i + 1;
    }
    proof {
        assert(forall|j: int|
            0 <= j < entries@.len() ==> #[trigger] sampler_names(entries@)[j] == entries@[j].name@);
    }
    false
}

fn material_cached(entries: &Vec<MaterialEntry>, name: &String) -> (r: bool)
    ensures
        r == contains_name(material_names(entries@), name@),
{
    let n = entries.len();
    let mut i: usize = 0;
    while i < n
        invariant
            n == entries@.len(),
            i <= n,
            forall|j: int| 0 <= j < i ==> entries@[j].name@ != name@,
        decreases n - i,
    {
        if entries[i].name == *name {
            proof {
                assert(material_names(entries@)[i as int] == name@);
            }
            return true;
        }
        i = i + 1;
    }
    proof {
        assert(forall|j: int|
            0 <= j < entries@.len() ==> #[trigger] material_names(entries@)[j]
                == entries@[j].name@);
    }
    false
}

fn mesh_cached(entries: &Vec<String>, name: &String) -> (r: bool)
    ensures
        r == contains_name(mesh_name_views(entries@), name@),
{
    let n = entries.len();
    let mut i: usize = 0;
    while i < n
        invariant
            n == entries@.len(),
            i <= n,
            forall|j: int| 0 <= j < i ==> entries@[j]@ != name@,
        decreases n - i,
    {
        if entries[i] == *name {
            proof {
                assert(mesh_name_views(entries@)[i as int] == name@);
            }
            return true;
        }
        i = i + 1;
    }
    proof {
        assert(forall|j: int|
            0 <= j < entries@.len() ==> #[trigger] mesh_name_views(entries@)[j] == entries@[j]@);
    }
    false
}

impl WorldRender {
    /// Translate scene data into GPU resources, lazily and incrementally:
    /// every texture, material and mesh name not yet cached gains exactly
    /// one cache entry; names already cached gain nothing.
    ///
    /// Every texture name a material resolves to (placeholders included)
    /// must be cached once the offered textures are, so the caller seeds
    /// the placeholder textures before the first update.
    pub fn update(&mut self, meshes: &Vec<Mesh>, materials: &Vec<Material>, textures: &Vec<Texture>)
        requires
            world_wf(*old(self)),
            forall|j: int|
                0 <= j < materials@.len() ==> material_refs_available(
                    #[trigger] materials@[j],
                    names_after(texture_names(textures@), sampler_names(old(self).image_samplers@)),
                ),
        ensures
            world_wf(*final(self)),
            update_post(*old(self), meshes@, materials@, textures@, *final(self)),
    {
        self.gen_samplers(textures);
        self.gen_primitive_info(meshes);
        self.gen_material_info(materials);
    }

    /// Create the environment setup; per-stage global data lives beside
    /// the per-material cache.
    pub fn update_environment(&mut self)
        ensures
            final(self).environment == Some(environment_spec()),
            final(self).primitive_info == old(self).primitive_info,
            final(self).mesh_names == old(self).mesh_names,
            final(self).material_info == old(self).material_info,
            final(self).image_samplers == old(self).image_samplers,
    {
        self.environment = Some(Environment::new());
    }

    /// The draws one frame issues: one call per cached primitive, in
    /// cache order, indexed exactly when the primitive carries indices.
    pub fn record_draws(&self) -> (r: Vec<DrawCall>)
        ensures
            r@.len() == self.primitive_info@.len(),
            forall|i: int|
                0 <= i < r@.len() ==> draw_call_matches(#[trigger] r@[i], self.primitive_info@[i]),
    {
        let mut r: Vec<DrawCall> = Vec::new();
        let n = self.primitive_info.len();
        let mut i: usize = 0;
        while i < n
            invariant
                n == self.primitive_info@.len(),
                i <= n,
                r@.len() == i,
                forall|j: int|
                    0 <= j < i ==> draw_call_matches(#[trigger] r@[j], self.primitive_info@[j]),
            decreases n - i,
        {
            let p = &self.primitive_info[i];
            let (indexed, element_count) = match &p.index_buffer {
                Some(ib) => (true, ib.len()),
                None => (false, p.vertex_buffer.len()),
            };
            let material_name = match &p.material_name {
                Some(nm) => Some(nm.clone()),
                None => None,
            };
            r.push(DrawCall { indexed, element_count, material_name });
            i = i + 1;
        }
        r
    }

    fn gen_samplers(&mut self, textures: &Vec<Texture>)
        requires
            distinct_names(sampler_names(old(self).image_samplers@)),
        ensures
            distinct_names(sampler_names(final(self).image_samplers@)),
            sampler_names(final(self).image_samplers@) == names_after(
                texture_names(textures@),
                sampler_names(old(self).image_samplers@),
            ),
            final(self).image_samplers@.len() >= old(self).image_samplers@.len(),
            final(self).image_samplers@.take(old(self).image_samplers@.len() as int) == old(
                self,
            ).image_samplers@,
            forall|k: int|
                old(self).image_samplers@.len() <= k < final(self).image_samplers@.len()
                    ==> exists|j: int|
                    0 <= j < textures@.len() && (#[trigger] final(self).image_samplers@[k]).name@
                        == textures@[j].name@ && final(self).image_samplers@[k].data == (ImageData {
                        width: textures@[j].width,
                        height: textures@[j].height,
                    }) && (forall|j2: int| 0 <= j2 < j ==> textures@[j2].name@ != textures@[j].name@),
            final(self).primitive_info == old(self).primitive_info,
            final(self).mesh_names == old(self).mesh_names,
            final(self).material_info == old(self).material_info,
            final(self).environment == old(self).environment,
    {
        let ghost ns0 = sampler_names(old(self).image_samplers@);
        let n = textures.len();
        let mut i: usize = 0;
        while i < n
            invariant
                n == textures@.len(),
                i <= n,
                distinct_names(sampler_names(self.image_samplers@)),
                sampler_names(self.image_samplers@) == names_after(
                    texture_names(textures@).take(i as int),
                    ns0,
                ),
                ns0 == sampler_names(old(self).image_samplers@),
                self.image_samplers@.len() >= old(self).image_samplers@.len(),
                self.image_samplers@.take(old(self).image_samplers@.len() as int) == old(
                    self,
                ).image_samplers@,
                forall|k: int|
                    old(self).image_samplers@.len() <= k < self.image_samplers@.len() ==> exists|
                        j: int,
                    |
                        0 <= j < textures@.len() && (#[trigger] self.image_samplers@[k]).name@
                            == textures@[j].name@ && self.image_samplers@[k].data == (ImageData {
                            width: textures@[j].width,
                            height: textures@[j].height,
                        }) && (forall|j2: int|
                            0 <= j2 < j ==> textures@[j2].name@ != textures@[j].name@),
                self.primitive_info == old(self).primitive_info,
                self.mesh_names == old(self).mesh_names,
                self.material_info == old(self).material_info,
                self.environment == old(self).environment,
            decreases n - i,
        {
            proof {
                assert(texture_names(textures@).take(i + 1).drop_last() =~= texture_names(
                    textures@,
                ).take(i as int));
                assert(texture_names(textures@).take(i + 1).last() == textures@[i as int].name@);
            }
            let texture = &textures[i];
            if !sampler_cached(&self.image_samplers, &texture.name) {
                let ghost before = self.image_samplers@;
                let entry = SamplerEntry { name: texture.name.clone(), data: ImageData::new(
                    texture,
                ) };
                self.image_samplers.push(entry);
                proof {
                    assert(sampler_names(self.image_samplers@) =~= sampler_names(before).push(
                        textures@[i as int].name@,
                    ));
                    assert(self.image_samplers@.take(old(self).image_samplers@.len() as int)
                        =~= before.take(old(self).image_samplers@.len() as int));
                    let k = before.len() as int;
                    assert(self.image_samplers@[k].name@ == textures@[i as int].name@);
                    assert forall|j2: int| 0 <= j2 < i implies textures@[j2].name@
                        != textures@[i as int].name@ by {
                        if textures@[j2].name@ == textures@[i as int].name@ {
                            lemma_names_after_contains_inputs(
                                texture_names(textures@).take(i as int),
                                ns0,
                                j2,
                            );
                            assert(texture_names(textures@).take(i as int)[j2]
                                == textures@[j2].name@);
                        }
                    }
                }
            }
            i = i + 1;
        }
        proof {
            assert(texture_names(textures@).take(n as int) =~= texture_names(textures@));
        }
    }

    fn gen_primitive_info(&mut self, meshes: &Vec<Mesh>)
        requires
            distinct_names(mesh_name_views(old(self).mesh_names@)),
        ensures
            distinct_names(mesh_name_views(final(self).mesh_names@)),
            mesh_name_views(final(self).mesh_names@) == names_after(
                mesh_list_names(meshes@),
                mesh_name_views(old(self).mesh_names@),
            ),
            final(self).mesh_names@.len() >= old(self).mesh_names@.len(),
            final(self).mesh_names@.take(old(self).mesh_names@.len() as int) == old(
                self,
            ).mesh_names@,
            final(self).primitive_info@.len() == old(self).primitive_info@.len()
                + primitives_added(meshes@, mesh_name_views(old(self).mesh_names@)),
            final(self).primitive_info@.take(old(self).primitive_info@.len() as int) == old(
                self,
            ).primitive_info@,
            forall|k: int|
                old(self).primitive_info@.len() <= k < final(self).primitive_info@.len()
                    ==> prim_from_meshes(#[trigger] final(self).primitive_info@[k], meshes@),
            final(self).image_samplers == old(self).image_samplers,
            final(self).material_info == old(self).material_info,
            final(self).environment == old(self).environment,
    {
        let ghost ns0 = mesh_name_views(old(self).mesh_names@);
        let n = meshes.len();
        let mut i: usize = 0;
        while i < n
            invariant
                n == meshes@.len(),
                i <= n,
                distinct_names(mesh_name_views(self.mesh_names@)),
                mesh_name_views(self.mesh_names@) == names_after(
                    mesh_list_names(meshes@).take(i as int),
                    ns0,
                ),
                ns0 == mesh_name_views(old(self).mesh_names@),
                self.mesh_names@.len() >= old(self).mesh_names@.len(),
                self.mesh_names@.take(old(self).mesh_names@.len() as int) == old(self).mesh_names@,
                self.primitive_info@.len() == old(self).primitive_info@.len() + primitives_added(
                    meshes@.take(i as int),
                    ns0,
                ),
                self.primitive_info@.take(old(self).primitive_info@.len() as int) == old(
                    self,
                ).primitive_info@,
                forall|k: int|
                    old(self).primitive_info@.len() <= k < self.primitive_info@.len()
                        ==> prim_from_meshes(#[trigger] self.primitive_info@[k], meshes@),
                self.image_samplers == old(self).image_samplers,
                self.material_info == old(self).material_info,
                self.environment == old(self).environment,
            decreases n - i,
        {
            proof {
                assert(mesh_list_names(meshes@).take(i + 1).drop_last() =~= mesh_list_names(
                    meshes@,
                ).take(i as int));
                assert(mesh_list_names(meshes@).take(i + 1).last() == meshes@[i as int].name@);
                assert(meshes@.take(i + 1).drop_last() =~= meshes@.take(i as int));
                assert(meshes@.take(i + 1).last() == meshes@[i as int]);
                assert(mesh_list_names(meshes@.take(i as int)) =~= mesh_list_names(meshes@).take(
                    i as int,
                ));
            }
            let mesh = &meshes[i];
            if !mesh_cached(&self.mesh_names, &mesh.name) {
                let ghost names_before = self.mesh_names@;
                let ghost prims_before = self.primitive_info@;
                self.mesh_names.push(mesh.name.clone());
                let mut generated = PrimitiveInfo::generate_from_mesh(mesh);
                let ghost generated_view = generated@;
                self.primitive_info.append(&mut generated);
                proof {
                    assert(mesh_name_views(self.mesh_names@) =~= mesh_name_views(
                        names_before,
                    ).push(meshes@[i as int].name@));
                    assert(self.mesh_names@.take(old(self).mesh_names@.len() as int)
                        =~= names_before.take(old(self).mesh_names@.len() as int));
                    assert(self.primitive_info@.take(old(self).primitive_info@.len() as int)
                        =~= prims_before.take(old(self).primitive_info@.len() as int));
                    assert forall|k: int|
                        old(self).primitive_info@.len() <= k < self.primitive_info@.len() implies
                    prim_from_meshes(#[trigger] self.primitive_info@[k], meshes@) by {
                        if k < prims_before.len() {
                            assert(self.primitive_info@[k] == prims_before[k]);
                        } else {
                            let l = k - prims_before.len();
                            assert(self.primitive_info@[k] == generated_view[l]);
                            assert(prim_info_matches(
                                self.primitive_info@[k],
                                meshes@[i as int].primitives@[l],
                            ));
                        }
                    }
                }
            } else {
                proof {
                    assert(primitives_added(meshes@.take(i + 1), ns0) == primitives_added(
                        meshes@.take(i as int),
                        ns0,
                    ));
                }
            }
            i = i + 1;
        }
        proof {
            assert(mesh_list_names(meshes@).take(n as int) =~= mesh_list_names(meshes@));
            assert(meshes@.take(n as int) =~= meshes@);
        }
    }

    fn gen_material_info(&mut self, materials: &Vec<Material>)
        requires
            distinct_names(material_names(old(self).material_info@)),
            forall|j: int|
                0 <= j < materials@.len() ==> material_refs_available(
                    #[trigger] materials@[j],
                    sampler_names(old(self).image_samplers@),
                ),
        ensures
            distinct_names(material_names(final(self).material_info@)),
            material_names(final(self).material_info@) == names_after(
                material_list_names(materials@),
                material_names(old(self).material_info@),
            ),
            final(self).material_info@.len() >= old(self).material_info@.len(),
            final(self).material_info@.take(old(self).material_info@.len() as int) == old(
                self,
            ).material_info@,
            forall|k: int|
                old(self).material_info@.len() <= k < final(self).material_info@.len() ==> exists|
                    j: int,
                |
                    0 <= j < materials@.len() && (#[trigger] final(self).material_info@[k]).name@
                        == materials@[j].name@ && material_descriptor_matches(
                        final(self).material_info@[k].info,
                        materials@[j],
                    ) && (forall|j2: int|
                        0 <= j2 < j ==> materials@[j2].name@ != materials@[j].name@),
            final(self).primitive_info == old(self).primitive_info,
            final(self).mesh_names == old(self).mesh_names,
            final(self).image_samplers == old(self).image_samplers,
            final(self).environment == old(self).environment,
    {
        let ghost ns0 = material_names(old(self).material_info@);
        let n = materials.len();
        let mut i: usize = 0;
        while i < n
            invariant
                n == materials@.len(),
                i <= n,
                distinct_names(material_names(self.material_info@)),
                material_names(self.material_info@) == names_after(
                    material_list_names(materials@).take(i as int),
                    ns0,
                ),
                ns0 == material_names(old(self).material_info@),
                self.material_info@.len() >= old(self).material_info@.len(),
                self.material_info@.take(old(self).material_info@.len() as int) == old(
                    self,
                ).material_info@,
                forall|j: int|
                    0 <= j < materials@.len() ==> material_refs_available(
                        #[trigger] materials@[j],
                        sampler_names(self.image_samplers@),
                    ),
                forall|k: int|
                    old(self).material_info@.len() <= k < self.material_info@.len() ==> exists|
                        j: int,
                    |
                        0 <= j < materials@.len() && (#[trigger] self.material_info@[k]).name@
                            == materials@[j].name@ && material_descriptor_matches(
                            self.material_info@[k].info,
                            materials@[j],
                        ) && (forall|j2: int|
                            0 <= j2 < j ==> materials@[j2].name@ != materials@[j].name@),
                self.primitive_info == old(self).primitive_info,
                self.mesh_names == old(self).mesh_names,
                self.image_samplers == old(self).image_samplers,
                self.environment == old(self).environment,
            decreases n - i,
        {
            proof {
                assert(material_list_names(materials@).take(i + 1).drop_last()
                    =~= material_list_names(materials@).take(i as int));
                assert(material_list_names(materials@).take(i + 1).last()
                    == materials@[i as int].name@);
            }
            let material = &materials[i];
            if !material_cached(&self.material_info, &material.name) {
                let ghost before = self.material_info@;
                let info = MaterialInfo::new(material, &self.image_samplers);
                let entry = MaterialEntry { name: material.name.clone(), info };
                self.material_info.push(entry);
                proof {
                    assert(material_names(self.material_info@) =~= material_names(before).push(
                        materials@[i as int].name@,
                    ));
                    assert(self.material_info@.take(old(self).material_info@.len() as int)
                        =~= before.take(old(self).material_info@.len() as int));
                    let k = before.len() as int;
                    assert(self.material_info@[k].name@ == materials@[i as int].name@);
                    assert forall|j2: int| 0 <= j2 < i implies materials@[j2].name@
                        != materials@[i as int].name@ by {
                        if materials@[j2].name@ == materials@[i as int].name@ {
                            lemma_names_after_contains_inputs(
                                material_list_names(materials@).take(i as int),
                                ns0,
                                j2,
                            );
                            assert(material_list_names(materials@).take(i as int)[j2]
                                == materials@[j2].name@);
                        }
                    }
                }
            }
            i = i + 1;
        }
        proof {
            assert(material_list_names(materials@).take(n as int) =~= material_list_names(
                materials@,
            ));
        }
    }
}

/// Updating twice with the same meshes, materials and textures never
/// creates a second resource for an already-cached name: after the second
/// call every store holds exactly as many entries as after the first.
pub proof fn lemma_update_idempotent(
    w0: WorldRender,
    w1: WorldRender,
    w2: WorldRender,
    meshes: Seq<Mesh>,
    materials: Seq<Material>,
    textures: Seq<Texture>,
)
    requires
        update_post(w0, meshes, materials, textures, w1),
        update_post(w1, meshes, materials, textures, w2),
    ensures
        w2.image_samplers@.len() == w1.image_samplers@.len(),
        w2.material_info@.len() == w1.material_info@.len(),
        w2.mesh_names@.len() == w1.mesh_names@.len(),
        w2.primitive_info@.len() == w1.primitive_info@.len(),
{
    let tn = texture_names(textures);
    let mn = material_list_names(materials);
    let hn = mesh_list_names(meshes);

    assert forall|i: int| 0 <= i < tn.len() implies contains_name(
        sampler_names(w1.image_samplers@),
        #[trigger] tn[i],
    ) by {
        lemma_names_after_contains_inputs(tn, sampler_names(w0.image_samplers@), i);
    }
    lemma_names_after_saturated(tn, sampler_names(w1.image_samplers@));

    assert forall|i: int| 0 <= i < mn.len() implies contains_name(
        material_names(w1.material_info@),
        #[trigger] mn[i],
    ) by {
        lemma_names_after_contains_inputs(mn, material_names(w0.material_info@), i);
    }
    lemma_names_after_saturated(mn, material_names(w1.material_info@));

    assert forall|i: int| 0 <= i < hn.len() implies contains_name(
        mesh_name_views(w1.mesh_names@),
        #[trigger] hn[i],
    ) by {
        lemma_names_after_contains_inputs(hn, mesh_name_views(w0.mesh_names@), i);
    }
    lemma_names_after_saturated(hn, mesh_name_views(w1.mesh_names@));
    lemma_primitives_added_saturated(meshes, mesh_name_views(w1.mesh_names@));
}

} // verus!
