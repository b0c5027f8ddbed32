use aperture::error::Error;
use aperture::import::{
    load, load_materials, load_nodes, load_textures, SourceImage, SourceImageFormat,
    SourceMaterial, SourceMesh, SourcePrimitive,
};
use aperture::material::{ImageFormat, FLOAT_BITS_HALF};

fn image(name: Option<&str>, pixels: Vec<u8>) -> SourceImage {
    SourceImage {
        name: name.map(|n| n.to_string()),
        format: SourceImageFormat::R8G8B8,
        width: 1,
        height: 1,
        pixels,
    }
}

fn material_source(name: Option<&str>) -> SourceMaterial {
    SourceMaterial {
        name: name.map(|n| n.to_string()),
        base_color_factor: [1, 2, 3, 4],
        metallic_factor: 5,
        roughness_factor: 6,
        emissive_factor: [7, 8, 9],
        base_color_texture: None,
        normal_texture: None,
        metallic_roughness_texture: None,
        occlusion_texture: None,
    }
}

fn good_primitive() -> SourcePrimitive {
    SourcePrimitive {
        positions: Some(vec![[1, 2, 3], [4, 5, 6], [7, 8, 9]]),
        normals: Some(vec![[10, 0, 0], [0, 10, 0], [0, 0, 10]]),
        tex_coords: Some(vec![[0, 0], [1, 0], [0, 1]]),
        indices: vec![0, 1, 2],
        material_index: None,
    }
}

#[test]
fn format_maps_every_variant() {
    assert_eq!(aperture::import::format(SourceImageFormat::R8), ImageFormat::R8);
    assert_eq!(aperture::import::format(SourceImageFormat::R8G8), ImageFormat::R8G8);
    assert_eq!(aperture::import::format(SourceImageFormat::R8G8B8), ImageFormat::R8G8B8);
    assert_eq!(aperture::import::format(SourceImageFormat::R8G8B8A8), ImageFormat::R8G8B8A8);
    assert_eq!(aperture::import::format(SourceImageFormat::B8G8R8), ImageFormat::B8G8R8);
    assert_eq!(aperture::import::format(SourceImageFormat::B8G8R8A8), ImageFormat::B8G8R8A8);
    assert_eq!(aperture::import::format(SourceImageFormat::R16), ImageFormat::R16);
    assert_eq!(aperture::import::format(SourceImageFormat::R16G16), ImageFormat::R16G16);
    assert_eq!(aperture::import::format(SourceImageFormat::R16G16B16), ImageFormat::R16G16B16);
    assert_eq!(aperture::import::format(SourceImageFormat::R16G16B16A16), ImageFormat::R16G16B16A16);
}

#[test]
fn load_textures_widens_pixels_to_rgba() {
    let images = vec![image(Some("a"), vec![1, 2, 3, 4, 5, 6])];
    let textures = load_textures(&images);
    assert_eq!(textures.len(), 1);
    assert_eq!(textures[0].pixels, vec![1, 2, 3, 255, 4, 5, 6, 255]);
    assert_eq!(textures[0].format, ImageFormat::R8G8B8);
    assert_eq!(textures[0].name, "a");
}

#[test]
fn load_textures_defaults_missing_names() {
    let textures = load_textures(&vec![image(None, vec![])]);
    assert_eq!(textures[0].name, "Unnamed");
}

#[test]
fn load_textures_suffixes_clashing_names() {
    let images = vec![
        image(Some("wood"), vec![]),
        image(Some("wood"), vec![]),
        image(Some("wood"), vec![]),
    ];
    let textures = load_textures(&images);
    assert_eq!(textures[0].name, "wood");
    assert_eq!(textures[1].name, "wood_1");
    assert_eq!(textures[2].name, "wood_2");
}

#[test]
fn load_textures_renders_two_digit_counters() {
    let images: Vec<SourceImage> = (0..12).map(|_| image(Some("t"), vec![])).collect();
    let textures = load_textures(&images);
    assert_eq!(textures[0].name, "t");
    assert_eq!(textures[9].name, "t_9");
    assert_eq!(textures[10].name, "t_10");
    assert_eq!(textures[11].name, "t_11");
}

#[test]
fn load_materials_resolves_texture_indices_to_names() {
    let textures = load_textures(&vec![
        image(Some("albedo"), vec![]),
        image(Some("normals"), vec![]),
    ]);
    let mut src = material_source(Some("steel"));
    src.base_color_texture = Some(0);
    src.normal_texture = Some(1);
    let materials = load_materials(&vec![src], &textures);

    assert_eq!(materials.len(), 1);
    let m = &materials[0];
    assert_eq!(m.name, "steel");
    assert_eq!(m.base_color_factor, [1, 2, 3, 4]);
    assert_eq!(m.metallic_factor, 5);
    assert_eq!(m.roughness_factor, 6);
    assert_eq!(m.reflectance, FLOAT_BITS_HALF);
    assert_eq!(m.emissive_factor, [7, 8, 9]);
    assert_eq!(m.textures.base_color.as_deref(), Some("albedo"));
    assert_eq!(m.textures.normal.as_deref(), Some("normals"));
    assert_eq!(m.textures.metallic_roughness, None);
    assert_eq!(m.textures.ao, None);
}

#[test]
fn load_materials_defaults_missing_names() {
    let materials = load_materials(&vec![material_source(None)], &Vec::new());
    assert_eq!(materials[0].name, "Unnamed");
}

#[test]
fn load_nodes_assembles_interleaved_vertices() {
    let node = SourceMesh { name: Some("tri".to_string()), primitives: vec![good_primitive()] };
    let meshes = load_nodes(&vec![node], &Vec::new()).unwrap();
    assert_eq!(meshes.len(), 1);
    assert_eq!(meshes[0].name, "tri");
    assert_eq!(meshes[0].primitives.len(), 1);
    let p = &meshes[0].primitives[0];
    assert_eq!(p.index, 0);
    assert_eq!(p.vertices.len(), 3);
    assert_eq!(p.vertices[1].position, [4, 5, 6]);
    assert_eq!(p.vertices[1].normal, [0, 10, 0]);
    assert_eq!(p.vertices[1].uv_coord, [1, 0]);
    assert_eq!(p.indices, vec![0, 1, 2]);
    assert_eq!(p.material_name, None);
}

#[test]
fn load_nodes_defaults_missing_normals_to_zero() {
    let mut prim = good_primitive();
    prim.normals = None;
    let node = SourceMesh { name: None, primitives: vec![prim] };
    let meshes = load_nodes(&vec![node], &Vec::new()).unwrap();
    assert_eq!(meshes[0].name, "Unnamed");
    let p = &meshes[0].primitives[0];
    assert_eq!(p.vertices.len(), 3);
    assert_eq!(p.vertices[0].normal, [0, 0, 0]);
}

#[test]
fn load_nodes_fails_without_positions() {
    let mut prim = good_primitive();
    prim.positions = None;
    let node = SourceMesh { name: None, primitives: vec![prim] };
    match load_nodes(&vec![node], &Vec::new()) {
        Err(Error::NoVerticesFound) => {}
        other => panic!("expected NoVerticesFound, got {:?}", other),
    }
}

#[test]
fn load_nodes_fails_on_mismatched_normal_counts() {
    let mut prim = good_primitive();
    prim.normals = Some(vec![[0, 0, 0]]);
    let node = SourceMesh { name: None, primitives: vec![prim] };
    match load_nodes(&vec![node], &Vec::new()) {
        Err(Error::MismatchedVerticesNormals) => {}
        other => panic!("expected MismatchedVerticesNormals, got {:?}", other),
    }
}

#[test]
fn load_nodes_resolves_material_references() {
    let textures = Vec::new();
    let materials = load_materials(&vec![material_source(Some("steel"))], &textures);
    let mut prim = good_primitive();
    prim.material_index = Some(0);
    let node = SourceMesh { name: None, primitives: vec![prim] };
    let meshes = load_nodes(&vec![node], &materials).unwrap();
    assert_eq!(meshes[0].primitives[0].material_name.as_deref(), Some("steel"));
}

#[test]
fn load_assembles_a_whole_document() {
    let images = vec![image(Some("albedo"), vec![9, 9, 9])];
    let mut msrc = material_source(Some("steel"));
    msrc.base_color_texture = Some(0);
    let mut prim = good_primitive();
    prim.material_index = Some(0);
    let nodes = vec![SourceMesh { name: Some("helmet".to_string()), primitives: vec![prim] }];

    let (meshes, materials, textures) = load(&images, &vec![msrc], &nodes).unwrap();
    assert_eq!(textures.len(), 1);
    assert_eq!(materials.len(), 1);
    assert_eq!(meshes.len(), 1);
    assert_eq!(materials[0].textures.base_color.as_deref(), Some("albedo"));
    assert_eq!(meshes[0].primitives[0].material_name.as_deref(), Some("steel"));
}

#[test]
fn load_surfaces_the_first_primitive_error() {
    let mut bad = good_primitive();
    bad.positions = None;
    let nodes = vec![SourceMesh { name: None, primitives: vec![bad] }];
    assert!(matches!(
        load(&Vec::new(), &Vec::new(), &nodes),
        Err(Error::NoVerticesFound)
    ));
}

#[test]
fn error_messages_name_the_failure() {
    assert_eq!(Error::NoVerticesFound.message(), "no vertices found");
    assert_eq!(Error::MismatchedVerticesNormals.message(), "mismatched vertex and normal counts");
    assert_eq!(Error::NoSuchFile("x".to_string()).message(), "no such file");
}
