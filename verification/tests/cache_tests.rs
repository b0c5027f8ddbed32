use aperture::material::{ImageFormat, Material, Texture, TextureSet, FLOAT_BITS_ONE};
use aperture::mesh::{Mesh, Primitive, VPosNormTex};
use aperture::world_render::WorldRender;

fn texture(name: &str) -> Texture {
    Texture {
        name: name.to_string(),
        format: ImageFormat::R8G8B8A8,
        pixels: vec![0, 0, 0, 255],
        width: 1,
        height: 1,
    }
}

fn dummy_textures() -> Vec<Texture> {
    vec![
        texture("DUMMY_COLOR"),
        texture("DUMMY_NORMAL"),
        texture("DUMMY_METAL_ROUGH"),
        texture("DUMMY_AO"),
    ]
}

fn base_color_only_material(name: &str) -> Material {
    let mut m = Material::default();
    m.name = name.to_string();
    m.base_color_factor = [FLOAT_BITS_ONE, 0, 0, FLOAT_BITS_ONE];
    m
}

fn vertex() -> VPosNormTex {
    VPosNormTex {
        position: [0, 0, 0],
        normal: [0, 0, FLOAT_BITS_ONE],
        uv_coord: [0, 0],
    }
}

fn triangle_mesh(name: &str, material: Option<&str>) -> Mesh {
    let mut mesh = Mesh::default();
    mesh.name = name.to_string();
    mesh.add_primitive(Primitive {
        index: 0,
        material_name: material.map(|m| m.to_string()),
        vertices: vec![vertex(), vertex(), vertex()],
        indices: vec![],
    });
    mesh
}

#[test]
fn update_is_idempotent_per_name() {
    let mut cache = WorldRender::default();
    cache.update(&Vec::new(), &Vec::new(), &dummy_textures());

    let meshes = vec![triangle_mesh("helmet", Some("steel"))];
    let materials = vec![base_color_only_material("steel")];
    let textures = vec![texture("rust"), texture("rust")];
    cache.update(&meshes, &materials, &textures);

    let samplers_after_first = cache.image_samplers.len();
    let materials_after_first = cache.material_info.len();
    let meshes_after_first = cache.mesh_names.len();
    let primitives_after_first = cache.primitive_info.len();

    // A duplicated texture name within one call is cached once.
    assert_eq!(samplers_after_first, 5);
    assert_eq!(materials_after_first, 1);
    assert_eq!(meshes_after_first, 1);
    assert_eq!(primitives_after_first, 1);

    let meshes2 = vec![triangle_mesh("helmet", Some("steel"))];
    let materials2 = vec![base_color_only_material("steel")];
    let textures2 = vec![texture("rust"), texture("rust")];
    cache.update(&meshes2, &materials2, &textures2);

    assert_eq!(cache.image_samplers.len(), samplers_after_first);
    assert_eq!(cache.material_info.len(), materials_after_first);
    assert_eq!(cache.mesh_names.len(), meshes_after_first);
    assert_eq!(cache.primitive_info.len(), primitives_after_first);
}

#[test]
fn update_caches_new_names_incrementally() {
    let mut cache = WorldRender::default();
    cache.update(&Vec::new(), &Vec::new(), &dummy_textures());
    cache.update(
        &vec![triangle_mesh("a", None)],
        &Vec::new(),
        &vec![texture("one")],
    );
    cache.update(
        &vec![triangle_mesh("a", None), triangle_mesh("b", None)],
        &Vec::new(),
        &vec![texture("one"), texture("two")],
    );
    assert_eq!(cache.image_samplers.len(), 6);
    assert_eq!(cache.mesh_names.len(), 2);
    assert_eq!(cache.primitive_info.len(), 2);
}

#[test]
fn material_without_textures_binds_the_four_placeholders() {
    let mut cache = WorldRender::default();
    cache.update(
        &Vec::new(),
        &vec![base_color_only_material("plain")],
        &dummy_textures(),
    );
    assert_eq!(cache.material_info.len(), 1);
    let set = &cache.material_info[0].info.descriptor_set;
    assert_eq!(
        set.sampled_images,
        vec!["DUMMY_COLOR", "DUMMY_NORMAL", "DUMMY_METAL_ROUGH", "DUMMY_AO"]
    );
    assert!(set.vertex_uniform_buffer.is_some());
    assert!(set.fragment_uniform_buffer.is_some());
}

#[test]
fn material_with_textures_binds_them_and_fills_gaps() {
    let mut m = Material::default();
    m.name = "painted".to_string();
    m.textures = TextureSet {
        base_color: Some("albedo".to_string()),
        normal: None,
        metallic_roughness: Some("mr".to_string()),
        ao: None,
    };
    let mut textures = dummy_textures();
    textures.push(texture("albedo"));
    textures.push(texture("mr"));

    let mut cache = WorldRender::default();
    cache.update(&Vec::new(), &vec![m], &textures);
    let set = &cache.material_info[0].info.descriptor_set;
    assert_eq!(
        set.sampled_images,
        vec!["albedo", "DUMMY_NORMAL", "mr", "DUMMY_AO"]
    );
}

#[test]
fn one_untextured_triangle_yields_one_non_indexed_draw() {
    // One mesh of three vertices without indices and a base-color-only
    // material: exactly one non-indexed draw using the placeholders.
    let mut cache = WorldRender::default();
    cache.update(&Vec::new(), &Vec::new(), &dummy_textures());
    cache.update(
        &vec![triangle_mesh("tri", Some("flat"))],
        &vec![base_color_only_material("flat")],
        &Vec::new(),
    );

    let draws = cache.record_draws();
    assert_eq!(draws.len(), 1);
    assert!(!draws[0].indexed);
    assert_eq!(draws[0].element_count, 3);
    assert_eq!(draws[0].material_name.as_deref(), Some("flat"));

    let set = &cache.material_info[0].info.descriptor_set;
    assert_eq!(
        set.sampled_images,
        vec!["DUMMY_COLOR", "DUMMY_NORMAL", "DUMMY_METAL_ROUGH", "DUMMY_AO"]
    );
}

#[test]
fn indexed_primitives_draw_their_indices() {
    let mut mesh = Mesh::default();
    mesh.name = "quad".to_string();
    mesh.add_primitive(Primitive {
        index: 0,
        material_name: None,
        vertices: vec![vertex(), vertex(), vertex(), vertex()],
        indices: vec![0, 1, 2, 2, 3, 0],
    });

    let mut cache = WorldRender::default();
    cache.update(&vec![mesh], &Vec::new(), &Vec::new());
    let draws = cache.record_draws();
    assert_eq!(draws.len(), 1);
    assert!(draws[0].indexed);
    assert_eq!(draws[0].element_count, 6);
    assert_eq!(draws[0].material_name, None);
}

#[test]
fn update_environment_installs_the_offscreen_setup() {
    let mut cache = WorldRender::default();
    assert!(cache.environment.is_none());
    cache.update_environment();
    let env = cache.environment.unwrap();
    assert_eq!(env.cube_dimensions, [1024, 1024]);
    assert_eq!(env.cube_image_layers, 6);
    assert_eq!(env.skybox_vertex_count, 36);
    assert_eq!(env.offscreen_color_attachments, 1);
    assert_eq!(env.offscreen_depth_attachments, 1);
}
