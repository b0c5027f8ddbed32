use aperture::buffer::Buffer;
use aperture::image::{
    Extent3D, Image, ImageLayout, IMAGE_ASPECT_COLOR, IMAGE_ASPECT_DEPTH,
    IMAGE_USAGE_COLOR_ATTACHMENT, IMAGE_USAGE_DEPTH_STENCIL_ATTACHMENT, IMAGE_USAGE_SAMPLED,
};
use aperture::shader::{ShaderModule, ShaderStage};
use aperture::stage::{
    CompareOp, CullMode, FrontFace, GraphicsStage, LoadOp, PolygonMode, PrimitiveTopology,
    PushConstantRange, Resource, StoreOp, VertexBufferResource,
};

fn extent() -> Extent3D {
    Extent3D { width: 800, height: 600, depth: 1 }
}

fn back_buffer_image() -> Image {
    let mut img = Image::new(44, extent(), IMAGE_USAGE_COLOR_ATTACHMENT, 1, IMAGE_ASPECT_COLOR);
    img.set_as_back_buffer(true);
    img
}

fn depth_image() -> Image {
    Image::new(124, extent(), IMAGE_USAGE_DEPTH_STENCIL_ATTACHMENT, 1, IMAGE_ASPECT_DEPTH)
}

fn color_target_image() -> Image {
    Image::new(44, extent(), IMAGE_USAGE_COLOR_ATTACHMENT | IMAGE_USAGE_SAMPLED, 1, IMAGE_ASPECT_COLOR)
        .with_transition(
            IMAGE_ASPECT_COLOR,
            0,
            ImageLayout::Undefined,
            ImageLayout::ShaderReadOnlyOptimal,
        )
}

fn vertex_shader() -> ShaderModule {
    // Little-endian SPIR-V magic word followed by one payload word.
    let blob = [0x03u8, 0x02, 0x23, 0x07, 1, 0, 0, 0];
    ShaderModule::new(&blob, ShaderStage::Vertex).unwrap()
}

fn fragment_shader() -> ShaderModule {
    let blob = [0x03u8, 0x02, 0x23, 0x07, 2, 0, 0, 0];
    ShaderModule::new(&blob, ShaderStage::Fragment).unwrap()
}

#[test]
fn render_pass_succeeds_with_one_depth_and_one_color() {
    let writes = vec![
        Resource::Image(back_buffer_image()),
        Resource::Image(depth_image()),
    ];
    let builder = GraphicsStage::builder().writes_from(0).writes_from(1).clear();
    let rp = builder.build_render_pass(&writes).expect("valid stage must compile");

    assert_eq!(rp.attachments.len(), 2);
    assert_eq!(rp.attachments[0].load_op, LoadOp::Clear);
    assert_eq!(rp.attachments[0].store_op, StoreOp::Store);
    assert_eq!(rp.attachments[0].final_layout, ImageLayout::PresentSrc);
    assert_eq!(rp.attachments[0].format, 44);
    assert_eq!(rp.attachments[1].final_layout, ImageLayout::DepthStencilAttachmentOptimal);
    assert_eq!(rp.attachments[1].format, 124);

    assert_eq!(rp.color_attachment_refs.len(), 1);
    assert_eq!(rp.color_attachment_refs[0].attachment, 0);
    assert_eq!(rp.color_attachment_refs[0].layout, ImageLayout::ColorAttachmentOptimal);
    assert_eq!(rp.depth_attachment_ref.attachment, 1);
    assert_eq!(rp.depth_attachment_ref.layout, ImageLayout::DepthStencilAttachmentOptimal);

    assert_eq!(rp.dependencies.len(), 1);
    assert!(rp.dependencies[0].src_external);
}

#[test]
fn render_pass_without_clear_uses_dont_care() {
    let writes = vec![
        Resource::Image(back_buffer_image()),
        Resource::Image(depth_image()),
    ];
    let builder = GraphicsStage::builder().writes_from(0).writes_from(1);
    let rp = builder.build_render_pass(&writes).unwrap();
    assert_eq!(rp.attachments[0].load_op, LoadOp::DontCare);
}

#[test]
fn render_pass_color_target_uses_transition_layout() {
    let writes = vec![
        Resource::Image(color_target_image()),
        Resource::Image(depth_image()),
    ];
    let builder = GraphicsStage::builder().writes_from(0).writes_from(1);
    let rp = builder.build_render_pass(&writes).unwrap();
    assert_eq!(rp.attachments[0].final_layout, ImageLayout::ShaderReadOnlyOptimal);
    assert_eq!(rp.color_attachment_refs[0].layout, ImageLayout::ShaderReadOnlyOptimal);
}

#[test]
fn render_pass_fails_without_depth() {
    let writes = vec![Resource::Image(back_buffer_image())];
    let builder = GraphicsStage::builder().writes_from(0);
    assert!(builder.build_render_pass(&writes).is_none());
}

#[test]
fn render_pass_fails_without_color() {
    let writes = vec![Resource::Image(depth_image())];
    let builder = GraphicsStage::builder().writes_from(0);
    assert!(builder.build_render_pass(&writes).is_none());
}

#[test]
fn render_pass_fails_with_two_depth_attachments() {
    let writes = vec![
        Resource::Image(back_buffer_image()),
        Resource::Image(depth_image()),
        Resource::Image(depth_image()),
    ];
    let builder = GraphicsStage::builder().writes_from(0).writes_from(1).writes_from(2);
    assert!(builder.build_render_pass(&writes).is_none());
}

#[test]
fn render_pass_skips_non_image_writes() {
    let writes = vec![
        Resource::Buffer(Buffer::new(16, 0)),
        Resource::Image(back_buffer_image()),
        Resource::Image(depth_image()),
    ];
    let builder = GraphicsStage::builder().writes_from(0).writes_from(1).writes_from(2);
    let rp = builder.build_render_pass(&writes).unwrap();
    assert_eq!(rp.attachments.len(), 2);
    assert_eq!(rp.color_attachment_refs[0].attachment, 0);
    assert_eq!(rp.depth_attachment_ref.attachment, 1);
}

#[test]
fn pipeline_succeeds_with_one_vertex_and_one_fragment_stage() {
    let writes = vec![
        Resource::Image(back_buffer_image()),
        Resource::Image(depth_image()),
    ];
    let reads: Vec<Resource> = vec![Resource::VertexBuffer(
        VertexBufferResource::new(Buffer::new(96, 0), 32)
            .with_attribute_binding(106, 0, 0)
            .with_attribute_binding(106, 0, 12)
            .with_attribute_binding(103, 0, 24),
    )];
    let builder = GraphicsStage::builder()
        .reads_from(0)
        .writes_from(0)
        .writes_from(1)
        .uses_shader(vertex_shader())
        .uses_shader(fragment_shader())
        .uses_descriptor_set_layout(7)
        .push_constants(PushConstantRange { stage_flags: 1, offset: 0, size: 64 });

    let rp = builder.build_render_pass(&writes).unwrap();
    let layout = builder.build_pipeline_layout();
    assert_eq!(layout.set_layouts, vec![7]);
    assert_eq!(layout.push_constant_ranges.len(), 1);

    let pipeline = builder
        .build_graphics_pipeline(layout, &rp, &reads)
        .expect("one vertex + one fragment stage must compile");

    assert_eq!(pipeline.stages, vec![ShaderStage::Vertex, ShaderStage::Fragment]);
    assert_eq!(pipeline.vertex_bindings.len(), 1);
    assert_eq!(pipeline.vertex_bindings[0].stride, 32);
    assert_eq!(pipeline.vertex_attributes.len(), 3);
    assert_eq!(pipeline.vertex_attributes[0].location, 0);
    assert_eq!(pipeline.vertex_attributes[1].location, 1);
    assert_eq!(pipeline.vertex_attributes[2].location, 2);
    assert_eq!(pipeline.vertex_attributes[2].offset, 24);
    assert_eq!(pipeline.topology, PrimitiveTopology::TriangleList);
    assert_eq!(pipeline.front_face, FrontFace::CounterClockwise);
    assert_eq!(pipeline.cull_mode, CullMode::Back);
    assert_eq!(pipeline.polygon_mode, PolygonMode::Fill);
    assert!(pipeline.depth_test_enable);
    assert!(pipeline.depth_write_enable);
    assert_eq!(pipeline.depth_compare, CompareOp::LessOrEqual);
    assert_eq!(pipeline.samples, 1);
    assert!(pipeline.dynamic_viewport);
    assert!(pipeline.dynamic_scissor);
}

#[test]
fn pipeline_fails_with_second_vertex_stage() {
    let writes = vec![
        Resource::Image(back_buffer_image()),
        Resource::Image(depth_image()),
    ];
    let reads: Vec<Resource> = vec![];
    let builder = GraphicsStage::builder()
        .writes_from(0)
        .writes_from(1)
        .uses_shader(vertex_shader())
        .uses_shader(vertex_shader())
        .uses_shader(fragment_shader());
    let rp = builder.build_render_pass(&writes).unwrap();
    let layout = builder.build_pipeline_layout();
    assert!(builder.build_graphics_pipeline(layout, &rp, &reads).is_none());
}

#[test]
fn pipeline_fails_without_fragment_stage() {
    let writes = vec![
        Resource::Image(back_buffer_image()),
        Resource::Image(depth_image()),
    ];
    let reads: Vec<Resource> = vec![];
    let builder = GraphicsStage::builder()
        .writes_from(0)
        .writes_from(1)
        .uses_shader(vertex_shader());
    let rp = builder.build_render_pass(&writes).unwrap();
    let layout = builder.build_pipeline_layout();
    assert!(builder.build_graphics_pipeline(layout, &rp, &reads).is_none());
}
