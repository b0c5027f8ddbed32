use aperture::device::{
    find_queue_family, select_physical_device, teardown_plan, AdapterInfo, DeviceType,
    QueueFamilyInfo, TeardownStep,
};
use aperture::graph::RenderGraph;
use aperture::image::{Extent3D, Image, ImageLayout, IMAGE_ASPECT_DEPTH,
    IMAGE_USAGE_DEPTH_STENCIL_ATTACHMENT};
use aperture::light::{clamp_lights, light_uniform_data, PointLight, MAX_POINT_LIGHTS};
use aperture::material::{Material, Texture, FLOAT_BITS_2_5TH, FLOAT_BITS_HALF, FLOAT_BITS_ONE};
use aperture::mesh::{Mesh, Primitive};
use aperture::pipeline::{Pipeline, ShaderEntry};
use aperture::stage::{PolygonMode, Resource};
use aperture::surface::{Extent2D, Surface, SurfaceCapabilities, SurfaceFormat, TRANSFORM_IDENTITY};
use aperture::swapchain::{PresentMode, Swapchain};
use aperture::AppConfig;

fn family(graphics: bool, surface: bool) -> QueueFamilyInfo {
    QueueFamilyInfo { supports_graphics: graphics, supports_surface: surface }
}

fn adapter(device_type: DeviceType, extensions: bool, families: Vec<QueueFamilyInfo>) -> AdapterInfo {
    AdapterInfo { device_type, supports_required_extensions: extensions, queue_families: families }
}

#[test]
fn selection_prefers_discrete_gpus() {
    let adapters = vec![
        adapter(DeviceType::IntegratedGpu, true, vec![family(true, true)]),
        adapter(DeviceType::DiscreteGpu, true, vec![family(false, true), family(true, true)]),
        adapter(DeviceType::Cpu, true, vec![family(true, true)]),
    ];
    assert_eq!(select_physical_device(&adapters), Some((1, 1)));
}

#[test]
fn selection_skips_unqualified_adapters() {
    let adapters = vec![
        adapter(DeviceType::DiscreteGpu, false, vec![family(true, true)]),
        adapter(DeviceType::DiscreteGpu, true, vec![family(true, false), family(false, true)]),
        adapter(DeviceType::Other, true, vec![family(true, true)]),
    ];
    assert_eq!(select_physical_device(&adapters), Some((2, 0)));
}

#[test]
fn selection_takes_the_first_of_equal_rank() {
    let adapters = vec![
        adapter(DeviceType::VirtualGpu, true, vec![family(true, true)]),
        adapter(DeviceType::VirtualGpu, true, vec![family(true, true)]),
    ];
    assert_eq!(select_physical_device(&adapters), Some((0, 0)));
}

#[test]
fn selection_fails_with_no_qualifying_adapter() {
    let adapters = vec![adapter(DeviceType::DiscreteGpu, true, vec![family(true, false)])];
    assert_eq!(select_physical_device(&adapters), None);
    assert_eq!(select_physical_device(&Vec::new()), None);
}

#[test]
fn queue_family_search_returns_the_first_suitable() {
    let families = vec![family(true, false), family(true, true), family(true, true)];
    assert_eq!(find_queue_family(&families), Some(1));
    assert_eq!(find_queue_family(&vec![family(false, false)]), None);
}

#[test]
fn teardown_follows_reverse_creation_order_after_idle() {
    assert_eq!(
        teardown_plan(),
        vec![
            TeardownStep::WaitIdle,
            TeardownStep::DestroySemaphores,
            TeardownStep::DestroyFences,
            TeardownStep::DestroyImageViews,
            TeardownStep::DestroyCommandPool,
            TeardownStep::DestroyDevice,
            TeardownStep::DestroyInstance,
        ]
    );
}

#[test]
fn render_graph_hands_out_resource_indices_in_order() {
    let mut surface = Surface::new();
    surface.init_properties(
        &vec![SurfaceFormat { format: 44, color_space: 0 }],
        SurfaceCapabilities {
            min_image_count: 2,
            max_image_count: 0,
            current_extent: Extent2D { width: 640, height: 480 },
            min_image_extent: Extent2D { width: 1, height: 1 },
            max_image_extent: Extent2D { width: 4096, height: 4096 },
            supported_transforms: TRANSFORM_IDENTITY,
            current_transform: TRANSFORM_IDENTITY,
        },
        640,
        480,
    );
    let chain = Swapchain::new(&surface, &vec![PresentMode::Fifo]);
    let mut graph = RenderGraph::new(chain, 11);
    assert_eq!(graph.command_pool, 11);

    let depth = Image::new(
        124,
        Extent3D { width: 640, height: 480, depth: 1 },
        IMAGE_USAGE_DEPTH_STENCIL_ATTACHMENT,
        1,
        IMAGE_ASPECT_DEPTH,
    );
    assert_eq!(graph.writes_to(Resource::Image(depth)), 0);
    let depth2 = Image::new(
        124,
        Extent3D { width: 640, height: 480, depth: 1 },
        IMAGE_USAGE_DEPTH_STENCIL_ATTACHMENT,
        1,
        IMAGE_ASPECT_DEPTH,
    );
    assert_eq!(graph.writes_to(Resource::Image(depth2)), 1);
    assert_eq!(graph.reads.len(), 0);
    assert_eq!(graph.writes.len(), 2);
}

#[test]
fn image_transitions_move_the_layout_forward() {
    let mut depth = Image::new(
        124,
        Extent3D { width: 640, height: 480, depth: 1 },
        IMAGE_USAGE_DEPTH_STENCIL_ATTACHMENT,
        1,
        IMAGE_ASPECT_DEPTH,
    )
    .with_transition(
        IMAGE_ASPECT_DEPTH,
        0x600,
        ImageLayout::Undefined,
        ImageLayout::DepthAttachmentOptimal,
    );
    assert_eq!(depth.layout, ImageLayout::Undefined);
    depth.transition();
    assert_eq!(depth.layout, ImageLayout::DepthAttachmentOptimal);
    assert_eq!(depth.dimensions(), Extent2D { width: 640, height: 480 });
}

#[test]
fn pipeline_kinds_fix_their_settings() {
    let dims = Extent2D { width: 640, height: 480 };
    let shaded = Pipeline::Shaded.create(dims);
    assert_eq!(shaded.vertex_shader, ShaderEntry::PbrVert);
    assert_eq!(shaded.fragment_shader, ShaderEntry::PbrFrag);
    assert_eq!(shaded.vertex_stride, 32);
    assert_eq!(shaded.polygon_mode, PolygonMode::Fill);
    assert_eq!(shaded.push_constant_ranges.len(), 2);
    assert_eq!(shaded.push_constant_ranges[0].size, 64);
    assert_eq!(shaded.push_constant_ranges[1].offset, 64);
    assert_eq!(shaded.push_constant_ranges[1].size, 28);

    let cubemap = Pipeline::Cubemap.create(dims);
    assert_eq!(cubemap.vertex_shader, ShaderEntry::SkyboxVert);
    assert_eq!(cubemap.vertex_stride, 12);
    assert!(cubemap.push_constant_ranges.is_empty());

    let depth = Pipeline::Depth.create(dims);
    assert_eq!(depth.fragment_shader, ShaderEntry::DepthFrag);

    let wireframe = Pipeline::Wireframe.create(dims);
    assert_eq!(wireframe.polygon_mode, PolygonMode::Line);
}

#[test]
fn lights_widen_and_cap() {
    let light = PointLight {
        position: [1, 2, 3],
        color: [4, 5, 6],
    };
    assert_eq!(light.position(), [1, 2, 3, 0]);
    assert_eq!(light.color(), [4, 5, 6, FLOAT_BITS_ONE]);
    assert_eq!(light.power(), [2400, 0, 0, 0]);

    let many: Vec<PointLight> = (0..6)
        .map(|i| PointLight { position: [i, 0, 0], color: [0, 0, 0] })
        .collect();
    let clamped = clamp_lights(&many);
    assert_eq!(clamped.len(), MAX_POINT_LIGHTS);
    assert_eq!(clamped[3].position[0], 3);

    let few: Vec<PointLight> = (0..2)
        .map(|i| PointLight { position: [i, 0, 0], color: [0, 0, 0] })
        .collect();
    assert_eq!(clamp_lights(&few).len(), 2);
}

#[test]
fn defaults_carry_the_documented_values() {
    let config = AppConfig::default();
    assert_eq!(config.width, 1560);
    assert_eq!(config.height, 980);
    assert_eq!(config.title, "Aperture Renderer");

    let material = Material::default();
    assert_eq!(material.name, "Unnamed");
    assert_eq!(material.base_color_factor, [1.0f32.to_bits(); 4]);
    assert_eq!(material.metallic_factor, 0.0f32.to_bits());
    assert_eq!(material.roughness_factor, 0.4f32.to_bits());
    assert_eq!(material.reflectance, 0.5f32.to_bits());
    assert_eq!(FLOAT_BITS_ONE, 1.0f32.to_bits());
    assert_eq!(FLOAT_BITS_2_5TH, 0.4f32.to_bits());
    assert_eq!(FLOAT_BITS_HALF, 0.5f32.to_bits());

    let texture = Texture::default();
    assert_eq!(texture.name, "Unnamed");
    assert!(texture.pixels.is_empty());
}

#[test]
fn meshes_stamp_primitive_slots() {
    let mut mesh = Mesh::default();
    mesh.add_primitive(Primitive::default());
    mesh.add_primitive(Primitive::default());
    assert_eq!(mesh.primitives[0].index, 0);
    assert_eq!(mesh.primitives[1].index, 1);
}

#[test]
fn push_constant_block_lays_words_out_little_endian() {
    let mut model = [0u32; 16];
    model[0] = 0x0403_0201;
    model[15] = 0xAABB_CCDD;
    let base_color = [1u32, 2, 3, 4];
    let bytes = aperture::pipeline::push_constant_data(&model, &base_color, 5, 6, 7);
    assert_eq!(bytes.len(), 92);
    assert_eq!(&bytes[0..4], &[0x01, 0x02, 0x03, 0x04]);
    assert_eq!(&bytes[60..64], &[0xDD, 0xCC, 0xBB, 0xAA]);
    assert_eq!(&bytes[64..68], &[1, 0, 0, 0]);
    assert_eq!(&bytes[80..92], &[5, 0, 0, 0, 6, 0, 0, 0, 7, 0, 0, 0]);
}

#[test]
fn light_uniform_data_packs_three_quads_per_light() {
    let lights = vec![
        PointLight { position: [1, 2, 3], color: [4, 5, 6] },
        PointLight { position: [7, 8, 9], color: [10, 11, 12] },
    ];
    let data = light_uniform_data(&lights);
    assert_eq!(data.len(), 6);
    assert_eq!(data[0], [1, 2, 3, 0]);
    assert_eq!(data[1], [4, 5, 6, FLOAT_BITS_ONE]);
    assert_eq!(data[2], [2400, 0, 0, 0]);
    assert_eq!(data[3], [7, 8, 9, 0]);

    let many: Vec<PointLight> = (0..7)
        .map(|i| PointLight { position: [i, 0, 0], color: [0, 0, 0] })
        .collect();
    assert_eq!(light_uniform_data(&many).len(), 3 * MAX_POINT_LIGHTS);
}

#[test]
fn graph_swapchain_recreation_keeps_stages_and_resources() {
    let format_list = vec![SurfaceFormat { format: 44, color_space: 0 }];
    let caps = SurfaceCapabilities {
        min_image_count: 2,
        max_image_count: 0,
        current_extent: Extent2D { width: 640, height: 480 },
        min_image_extent: Extent2D { width: 1, height: 1 },
        max_image_extent: Extent2D { width: 4096, height: 4096 },
        supported_transforms: TRANSFORM_IDENTITY,
        current_transform: TRANSFORM_IDENTITY,
    };
    let mut surface = Surface::new();
    surface.init_properties(&format_list, caps, 640, 480);
    let modes = vec![PresentMode::Fifo];
    let mut graph = RenderGraph::new(Swapchain::new(&surface, &modes), 3);

    let mut grown = caps;
    grown.current_extent = Extent2D { width: 1280, height: 720 };
    surface.init_properties(&format_list, grown, 1280, 720);
    let retired = graph.recreate_swapchain(&surface, &modes).unwrap();
    assert_eq!(retired.extent, Extent2D { width: 640, height: 480 });
    assert_eq!(graph.swapchain.extent, Extent2D { width: 1280, height: 720 });
    assert_eq!(graph.command_pool, 3);
}
