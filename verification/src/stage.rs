//! The declarative render stage and its compilation.
//!
//! A stage accumulates, in caller order, the resources it reads (vertex
//! buffers, sampled images) and writes (color and depth attachments), its
//! shader modules, descriptor-set layouts and push-constant ranges.  Three
//! compilation steps turn the description into concrete objects, in a fixed
//! order because each depends on the previous one's output: the render
//! pass, the pipeline layout, and the graphics pipeline.  Compilation is
//! validated: a render pass demands at least one color and exactly one
//! depth attachment, a pipeline demands exactly one vertex and one
//! fragment shader stage; anything else fails.

use crate::buffer::Buffer;
use crate::image::{Image, ImageLayout, IMAGE_USAGE_DEPTH_STENCIL_ATTACHMENT};
use crate::shader::{ShaderModule, ShaderStage};
use vstd::prelude::*;

verus! {

/// The color-attachment-output pipeline stage bit.
pub const PIPELINE_STAGE_COLOR_ATTACHMENT_OUTPUT: u32 = 0x400;

/// Color-attachment access bits.
pub const ACCESS_COLOR_ATTACHMENT_READ: u32 = 0x80;

pub const ACCESS_COLOR_ATTACHMENT_WRITE: u32 = 0x100;

/// How an attachment's previous contents are treated when a pass begins.
#[derive(Debug, Clone, Copy, PartialEq, Eq, Structural)]
pub enum LoadOp {
    Load,
    Clear,
    DontCare,
}

/// Whether an attachment's contents are kept when a pass ends.
#[derive(Debug, Clone, Copy, PartialEq, Eq, Structural)]
pub enum StoreOp {
    Store,
    DontCare,
}

/// One attachment of a render pass.
#[derive(Debug, Clone, Copy, PartialEq, Eq, Structural)]
pub struct AttachmentDescription {
    pub format: u32,
    pub samples: u32,
    pub load_op: LoadOp,
    pub store_op: StoreOp,
    pub initial_layout: ImageLayout,
    pub final_layout: ImageLayout,
}

/// A subpass's reference to an attachment, by position.
#[derive(Debug, Clone, Copy, PartialEq, Eq, Structural)]
pub struct AttachmentReference {
    pub attachment: u32,
    pub layout: ImageLayout,
}

/// An execution dependency between the world outside the pass and its
/// first subpass.
#[derive(Debug, Clone, Copy, PartialEq, Eq, Structural)]
pub struct SubpassDependency {
    pub src_external: bool,
    pub src_stage_mask: u32,
    pub dst_stage_mask: u32,
    pub dst_access_mask: u32,
}

/// A compiled render pass: the attachment list, the subpass's color and
/// depth references, and the external dependency.
#[derive(Debug)]
pub struct RenderPassDescription {
    pub attachments: Vec<AttachmentDescription>,
    pub color_attachment_refs: Vec<AttachmentReference>,
    pub depth_attachment_ref: AttachmentReference,
    pub dependencies: Vec<SubpassDependency>,
}

/// One vertex buffer binding slot.
#[derive(Debug, Clone, Copy, PartialEq, Eq, Structural)]
pub struct VertexInputBinding {
    pub binding: u32,
    pub stride: u32,
}

/// One vertex attribute within a binding.
#[derive(Debug, Clone, Copy, PartialEq, Eq, Structural)]
pub struct VertexInputAttribute {
    pub location: u32,
    pub binding: u32,
    pub format: u32,
    pub offset: u32,
}

/// A vertex buffer together with its input layout.
#[derive(Debug)]
pub struct VertexBufferResource {
    pub buffer: Buffer,
    pub vertex_binding: VertexInputBinding,
    pub attribute_bindings: Vec<VertexInputAttribute>,
}

impl VertexBufferResource {
    /// Bind `buffer` at slot zero with the given vertex stride.
    pub fn new(buffer: Buffer, stride: u32) -> (r: Self)
        ensures
            r.buffer == buffer,
            r.vertex_binding == (VertexInputBinding { binding: 0, stride }),
            r.attribute_bindings@ == Seq::<VertexInputAttribute>::empty(),
    {
        VertexBufferResource {
            buffer,
            vertex_binding: VertexInputBinding { binding: 0, stride },
            attribute_bindings: Vec::new(),
        }
    }

    /// Append an attribute; its location is the next free one.
    pub fn with_attribute_binding(self, format: u32, binding: u32, offset: u32) -> (r: Self)
        requires
            self.attribute_bindings@.len() < u32::MAX,
        ensures
            r.buffer == self.buffer,
            r.vertex_binding == self.vertex_binding,
            r.attribute_bindings@ == self.attribute_bindings@.push(
                VertexInputAttribute {
                    location: self.attribute_bindings@.len() as u32,
                    binding,
                    format,
                    offset,
                },
            ),
    {
        let mut r = self;
        let location = r.attribute_bindings.len() as u32;
        r.attribute_bindings.push(VertexInputAttribute { location, binding, format, offset });
        r
    }
}

/// A resource a stage may read or write.
#[derive(Debug)]
pub enum Resource {
    VertexBuffer(VertexBufferResource),
    Buffer(Buffer),
    Image(Image),
}

/// A push-constant range, by shader stage bits.
#[derive(Debug, Clone, Copy, PartialEq, Eq, Structural)]
pub struct PushConstantRange {
    pub stage_flags: u32,
    pub offset: u32,
    pub size: u32,
}

/// A compiled pipeline layout: descriptor-set layout handles and
/// push-constant ranges, in declaration order.
#[derive(Debug)]
pub struct PipelineLayoutDescription {
    pub set_layouts: Vec<u64>,
    pub push_constant_ranges: Vec<PushConstantRange>,
}

#[derive(Debug, Clone, Copy, PartialEq, Eq, Structural)]
pub enum PrimitiveTopology {
    PointList,
    LineList,
    TriangleList,
}

#[derive(Debug, Clone, Copy, PartialEq, Eq, Structural)]
pub enum FrontFace {
    CounterClockwise,
    Clockwise,
}

#[derive(Debug, Clone, Copy, PartialEq, Eq, Structural)]
pub enum CullMode {
    Disabled,
    Front,
    Back,
}

#[derive(Debug, Clone, Copy, PartialEq, Eq, Structural)]
pub enum PolygonMode {
    Fill,
    Line,
}

#[derive(Debug, Clone, Copy, PartialEq, Eq, Structural)]
pub enum CompareOp {
    Never,
    Less,
    LessOrEqual,
    Always,
}

/// A compiled graphics pipeline: shader stages, vertex input layout, the
/// pipeline layout it was built against, and the fixed-function state.
/// Viewport and scissor are dynamic, set per frame rather than baked in.
#[derive(Debug)]
pub struct GraphicsPipelineDescription {
    pub stages: Vec<ShaderStage>,
    pub vertex_bindings: Vec<VertexInputBinding>,
    pub vertex_attributes: Vec<VertexInputAttribute>,
    pub layout: PipelineLayoutDescription,
    pub topology: PrimitiveTopology,
    pub front_face: FrontFace,
    pub cull_mode: CullMode,
    pub polygon_mode: PolygonMode,
    pub depth_test_enable: bool,
    pub depth_write_enable: bool,
    pub depth_compare: CompareOp,
    pub samples: u32,
    pub dynamic_viewport: bool,
    pub dynamic_scissor: bool,
}

/// Every index points into the resource list.
pub open spec fn indices_in_bounds(idxs: Seq<usize>, n: int) -> bool {
    forall|i: int| 0 <= i < idxs.len() ==> idxs[i] < n
}

/// The image resources among the referenced writes, in reference order.
pub open spec fn image_writes(idxs: Seq<usize>, res: Seq<Resource>) -> Seq<Image>
    decreases idxs.len(),
{
    if idxs.len() == 0 {
        Seq::empty()
    } else {
        let rest = image_writes(idxs.drop_last(), res);
        match res[idxs.last() as int] {
            Resource::Image(img) => rest.push(img),
            _ => rest,
        }
    }
}

/// A depth write: not the back buffer, and usable as a depth attachment.
pub open spec fn is_depth_image(img: Image) -> bool {
    &&& !img.back_buffer
    &&& img.usage & IMAGE_USAGE_DEPTH_STENCIL_ATTACHMENT != 0
}

/// Every written image that is neither the back buffer nor a depth
/// attachment must carry a pending transition, which decides its final
/// layout in the pass.
pub open spec fn write_images_wf(imgs: Seq<Image>) -> bool {
    forall|i: int|
        0 <= i < imgs.len() && !imgs[i].back_buffer && !is_depth_image(#[trigger] imgs[i])
            ==> imgs[i].transition is Some
}

/// The layout an attachment is left in when the pass ends: present-source
/// for the back buffer, depth-optimal for a depth attachment, otherwise
/// whatever the image's own pending transition requests.
pub open spec fn attachment_final_layout(img: Image) -> ImageLayout {
    if img.back_buffer {
        ImageLayout::PresentSrc
    } else if is_depth_image(img) {
        ImageLayout::DepthStencilAttachmentOptimal
    } else {
        img.transition->0.final_layout
    }
}

/// The attachment derived from one written image.
pub open spec fn attachment_of(img: Image, clear: bool) -> AttachmentDescription {
    AttachmentDescription {
        format: img.format,
        samples: 1,
        load_op: if clear {
            LoadOp::Clear
        } else {
            LoadOp::DontCare
        },
        store_op: StoreOp::Store,
        initial_layout: ImageLayout::Undefined,
        final_layout: attachment_final_layout(img),
    }
}

/// The attachments derived from the written images, in order.
pub open spec fn attachments_of(imgs: Seq<Image>, clear: bool) -> Seq<AttachmentDescription>
    decreases imgs.len(),
{
    if imgs.len() == 0 {
        Seq::empty()
    } else {
        attachments_of(imgs.drop_last(), clear).push(attachment_of(imgs.last(), clear))
    }
}

/// The layout a color reference uses within the subpass.
pub open spec fn color_ref_layout(img: Image) -> ImageLayout {
    if img.back_buffer {
        ImageLayout::ColorAttachmentOptimal
    } else {
        img.transition->0.final_layout
    }
}

/// References to the color attachments, in attachment order.
pub open spec fn color_refs_of(imgs: Seq<Image>) -> Seq<AttachmentReference>
    decreases imgs.len(),
{
    if imgs.len() == 0 {
        Seq::empty()
    } else {
        let rest = color_refs_of(imgs.drop_last());
        if is_depth_image(imgs.last()) {
            rest
        } else {
            rest.push(
                AttachmentReference {
                    attachment: (imgs.len() - 1) as u32,
                    layout: color_ref_layout(imgs.last()),
                },
            )
        }
    }
}

/// References to the depth attachments, in attachment order.
pub open spec fn depth_refs_of(imgs: Seq<Image>) -> Seq<AttachmentReference>
    decreases imgs.len(),
{
    if imgs.len() == 0 {
        Seq::empty()
    } else {
        let rest = depth_refs_of(imgs.drop_last());
        if is_depth_image(imgs.last()) {
            rest.push(
                AttachmentReference {
                    attachment: (imgs.len() - 1) as u32,
                    layout: ImageLayout::DepthStencilAttachmentOptimal,
                },
            )
        } else {
            rest
        }
    }
}

/// A stage description compiles into a render pass exactly when it writes
/// at least one color attachment and exactly one depth attachment.
pub open spec fn render_pass_valid(imgs: Seq<Image>) -> bool {
    &&& color_refs_of(imgs).len() >= 1
    &&& depth_refs_of(imgs).len() == 1
}

/// The one dependency every compiled pass carries: color-attachment writes
/// of the subpass are ordered after any prior use of the attachment.
pub open spec fn external_color_dependency() -> SubpassDependency {
    SubpassDependency {
        src_external: true,
        src_stage_mask: PIPELINE_STAGE_COLOR_ATTACHMENT_OUTPUT,
        dst_stage_mask: PIPELINE_STAGE_COLOR_ATTACHMENT_OUTPUT,
        dst_access_mask: ACCESS_COLOR_ATTACHMENT_READ | ACCESS_COLOR_ATTACHMENT_WRITE,
    }
}

/// The stages of the accumulated shader modules, in order.
pub open spec fn stages_of(shaders: Seq<ShaderModule>) -> Seq<ShaderStage>
    decreases shaders.len(),
{
    if shaders.len() == 0 {
        Seq::empty()
    } else {
        stages_of(shaders.drop_last()).push(shaders.last().stage)
    }
}

/// How many of `stages` equal `s`.
pub open spec fn count_stage(stages: Seq<ShaderStage>, s: ShaderStage) -> nat
    decreases stages.len(),
{
    if stages.len() == 0 {
        0
    } else {
        count_stage(stages.drop_last(), s) + if stages.last() == s {
            1nat
        } else {
            0nat
        }
    }
}

/// A stage description compiles into a graphics pipeline exactly when it
/// holds exactly one vertex and exactly one fragment shader stage.
pub open spec fn pipeline_stages_valid(stages: Seq<ShaderStage>) -> bool {
    &&& count_stage(stages, ShaderStage::Vertex) == 1
    &&& count_stage(stages, ShaderStage::Fragment) == 1
}

/// The vertex bindings of the referenced reads that are vertex buffers,
/// in reference order.
pub open spec fn vertex_bindings_of(idxs: Seq<usize>, res: Seq<Resource>) -> Seq<
    VertexInputBinding,
>
    decreases idxs.len(),
{
    if idxs.len() == 0 {
        Seq::empty()
    } else {
        let rest = vertex_bindings_of(idxs.drop_last(), res);
        match res[idxs.last() as int] {
            Resource::VertexBuffer(vb) => rest.push(vb.vertex_binding),
            _ => rest,
        }
    }
}

/// The concatenated attributes of the referenced vertex buffers, in
/// reference order.
pub open spec fn vertex_attributes_of(idxs: Seq<usize>, res: Seq<Resource>) -> Seq<
    VertexInputAttribute,
>
    decreases idxs.len(),
{
    if idxs.len() == 0 {
        Seq::empty()
    } else {
        let rest = vertex_attributes_of(idxs.drop_last(), res);
        match res[idxs.last() as int] {
            Resource::VertexBuffer(vb) => rest + vb.attribute_bindings@,
            _ => rest,
        }
    }
}

/// A compiled stage: what it reads and writes, and the three compiled
/// artifacts.
#[derive(Debug)]
pub struct GraphicsStage {
    pub reads: Vec<usize>,
    pub writes: Vec<usize>,
    pub render_pass: RenderPassDescription,
    pub pipeline_layout: PipelineLayoutDescription,
    pub pipeline: GraphicsPipelineDescription,
}

impl GraphicsStage {
    /// An empty stage description to accumulate into.
    pub fn builder() -> (r: GraphcisStageBuilder)
        ensures
            builder_empty(r),
    {
        GraphcisStageBuilder::default()
    }
}

/// The builder is in its initial state.
pub open spec fn builder_empty(b: GraphcisStageBuilder) -> bool {
    &&& b.reads@ == Seq::<usize>::empty()
    &&& b.writes@ == Seq::<usize>::empty()
    &&& b.shaders@ == Seq::<ShaderModule>::empty()
    &&& b.descriptor_set_layouts@ == Seq::<u64>::empty()
    &&& b.push_constants@ == Seq::<PushConstantRange>::empty()
    &&& !b.clear
}

/// Accumulates a stage description before compilation.
#[derive(Debug)]
pub struct GraphcisStageBuilder {
    pub reads: Vec<usize>,
    pub writes: Vec<usize>,
    pub shaders: Vec<ShaderModule>,
    pub descriptor_set_layouts: Vec<u64>,
    pub push_constants: Vec<PushConstantRange>,
    pub clear: bool,
}

impl Default for GraphcisStageBuilder {
    fn default() -> (r: Self)
        ensures
            builder_empty(r),
    {
        GraphcisStageBuilder {
            reads: Vec::new(),
            writes: Vec::new(),
            shaders: Vec::new(),
            descriptor_set_layouts: Vec::new(),
            push_constants: Vec::new(),
            clear: false,
        }
    }
}

impl GraphcisStageBuilder {
    /// Read from the resource at `idx` of the graph's read list.
    pub fn reads_from(self, idx: usize) -> (r: Self)
        ensures
            r.reads@ == self.reads@.push(idx),
            r.writes == self.writes,
            r.shaders == self.shaders,
            r.descriptor_set_layouts == self.descriptor_set_layouts,
            r.push_constants == self.push_constants,
            r.clear == self.clear,
    {
        let mut r = self;
        r.reads.push(idx);
        r
    }

    /// Write to the resource at `idx` of the graph's write list.
    pub fn writes_from(self, idx: usize) -> (r: Self)
        ensures
            r.writes@ == self.writes@.push(idx),
            r.reads == self.reads,
            r.shaders == self.shaders,
            r.descriptor_set_layouts == self.descriptor_set_layouts,
            r.push_constants == self.push_constants,
            r.clear == self.clear,
    {
        let mut r = self;
        r.writes.push(idx);
        r
    }

    /// Add a shader module.
    pub fn uses_shader(self, shader: ShaderModule) -> (r: Self)
        ensures
            r.shaders@ == self.shaders@.push(shader),
            r.reads == self.reads,
            r.writes == self.writes,
            r.descriptor_set_layouts == self.descriptor_set_layouts,
            r.push_constants == self.push_constants,
            r.clear == self.clear,
    {
        let mut r = self;
        r.shaders.push(shader);
        r
    }

    /// Add a descriptor-set layout by handle.
    pub fn uses_descriptor_set_layout(self, layout: u64) -> (r: Self)
        ensures
            r.descriptor_set_layouts@ == self.descriptor_set_layouts@.push(layout),
            r.reads == self.reads,
            r.writes == self.writes,
            r.shaders == self.shaders,
            r.push_constants == self.push_constants,
            r.clear == self.clear,
    {
        let mut r = self;
        r.descriptor_set_layouts.push(layout);
        r
    }

    /// Add a push-constant range.
    pub fn push_constants(self, push_constants: PushConstantRange) -> (r: Self)
        ensures
            r.push_constants@ == self.push_constants@.push(push_constants),
            r.reads == self.reads,
            r.writes == self.writes,
            r.shaders == self.shaders,
            r.descriptor_set_layouts == self.descriptor_set_layouts,
            r.clear == self.clear,
    {
        let mut r = self;
        r.push_constants.push(push_constants);
        r
    }

    /// Clear attachments when the pass begins.
    pub fn clear(self) -> (r: Self)
        ensures
            r.clear,
            r.reads == self.reads,
            r.writes == self.writes,
            r.shaders == self.shaders,
            r.descriptor_set_layouts == self.descriptor_set_layouts,
            r.push_constants == self.push_constants,
    {
        let mut r = self;
        r.clear = true;
        r
    }

    /// Compile the render pass from the written resources.
    ///
    /// Walks the writes in declaration order; each image write becomes an
    /// attachment whose load op is clear-or-don't-care and whose final
    /// layout is decided by what the image is (back buffer, depth target,
    /// or transition-bound color target).  Succeeds exactly when the
    /// writes carry at least one color and exactly one depth attachment.
    pub fn build_render_pass(&self, write_resources: &Vec<Resource>) -> (r: Option<
        RenderPassDescription,
    >)
        requires
            self.writes@.len() <= u32::MAX,
            indices_in_bounds(self.writes@, write_resources@.len() as int),
            write_images_wf(image_writes(self.writes@, write_resources@)),
        ensures
            ({
                let imgs = image_writes(self.writes@, write_resources@);
                &&& (r is Some <==> render_pass_valid(imgs))
                &&& (r matches Some(rp) ==> {
                    &&& rp.attachments@ == attachments_of(imgs, self.clear)
                    &&& rp.color_attachment_refs@ == color_refs_of(imgs)
                    &&& rp.depth_attachment_ref == depth_refs_of(imgs)[0]
                    &&& rp.dependencies@ == seq![external_color_dependency()]
                })
            }),
    {
        let ghost res = write_resources@;
        let mut attachments: Vec<AttachmentDescription> = Vec::new();
        let mut color_refs: Vec<AttachmentReference> = Vec::new();
        let mut depth_refs: Vec<AttachmentReference> = Vec::new();

        let n = self.writes.len();
        let mut i: usize = 0;
        while i < n
            invariant
                n == self.writes@.len() <= u32::MAX,
                i <= n,
                indices_in_bounds(self.writes@, res.len() as int),
                write_images_wf(image_writes(self.writes@, res)),
                res == write_resources@,
                ({
                    let imgs = image_writes(self.writes@.take(i as int), res);
                    &&& attachments@ == attachments_of(imgs, self.clear)
                    &&& color_refs@ == color_refs_of(imgs)
                    &&& depth_refs@ == depth_refs_of(imgs)
                    &&& imgs.len() == attachments@.len() <= i
                }),
            decreases n - i,
        {
            let ghost prefix = self.writes@.take(i as int);
            let ghost imgs = image_writes(prefix, res);
            proof {
                assert(self.writes@.take(i + 1).drop_last() =~= prefix);
                assert(self.writes@.take(i + 1).last() == self.writes@[i as int]);
                lemma_image_writes_prefix(self.writes@, res, i as int);
            }
            let idx = self.writes[i];
            match &write_resources[idx] {
                Resource::Image(image) => {
                    let ghost imgs_next = image_writes(self.writes@.take(i + 1), res);
                    proof {
                        assert(imgs_next == imgs.push(*image));
                        assert(imgs_next.drop_last() =~= imgs);
                        assert(imgs_next.last() == *image);
                        lemma_image_writes_take_is_prefix(self.writes@, res, i + 1);
                        assert(imgs_next[imgs.len() as int] == *image);
                        assert(image_writes(self.writes@, res)[imgs.len() as int] == *image);
                    }
                    let attachment_idx = attachments.len() as u32;

                    let mut load_op = LoadOp::DontCare;
                    if self.clear {
                        load_op = LoadOp::Clear;
                    }
                    let final_layout: ImageLayout;
                    if image.back_buffer {
                        final_layout = ImageLayout::PresentSrc;
                        color_refs.push(
                            AttachmentReference {
                                attachment: attachment_idx,
                                layout: ImageLayout::ColorAttachmentOptimal,
                            },
                        );
                    } else if image.usage & IMAGE_USAGE_DEPTH_STENCIL_ATTACHMENT != 0 {
                        final_layout = ImageLayout::DepthStencilAttachmentOptimal;
                        depth_refs.push(
                            AttachmentReference {
                                attachment: attachment_idx,
                                layout: ImageLayout::DepthStencilAttachmentOptimal,
                            },
                        );
                    } else {
                        proof {
                            assert(!is_depth_image(*image));
                            assert(image.transition is Some);
                        }
                        let t_final = match &image.transition {
                            Some(t) => t.final_layout,
                            None => unreached(),
                        };
                        final_layout = t_final;
                        color_refs.push(
                            AttachmentReference { attachment: attachment_idx, layout: t_final },
                        );
                    }
                    attachments.push(
                        AttachmentDescription {
                            format: image.format,
                            samples: 1,
                            load_op,
                            store_op: StoreOp::Store,
                            initial_layout: ImageLayout::Undefined,
                            final_layout,
                        },
                    );
                },
                _ => {
                    proof {
                        assert(image_writes(self.writes@.take(i + 1), res) == imgs);
                    }
                },
            }
            i = i + 1;
        }
        proof {
            assert(self.writes@.take(n as int) =~= self.writes@);
        }

        if color_refs.len() == 0 || depth_refs.len() != 1 {
            return None;
        }

        let depth_attachment_ref = depth_refs[0];
        let mut dependencies: Vec<SubpassDependency> = Vec::new();
        dependencies.push(
            SubpassDependency {
                src_external: true,
                src_stage_mask: PIPELINE_STAGE_COLOR_ATTACHMENT_OUTPUT,
                dst_stage_mask: PIPELINE_STAGE_COLOR_ATTACHMENT_OUTPUT,
                dst_access_mask: ACCESS_COLOR_ATTACHMENT_READ | ACCESS_COLOR_ATTACHMENT_WRITE,
            },
        );
        proof {
            assert(dependencies@ =~= seq![external_color_dependency()]);
        }
        Some(
            RenderPassDescription {
                attachments,
                color_attachment_refs: color_refs,
                depth_attachment_ref,
                dependencies,
            },
        )
    }

    /// Compile the pipeline layout: the declared descriptor-set layouts
    /// and push-constant ranges, in order.
    pub fn build_pipeline_layout(&self) -> (r: PipelineLayoutDescription)
        ensures
            r.set_layouts@ == self.descriptor_set_layouts@,
            r.push_constant_ranges@ == self.push_constants@,
    {
        let mut set_layouts: Vec<u64> = Vec::new();
        let mut i: usize = 0;
        while i < self.descriptor_set_layouts.len()
            invariant
                i <= self.descriptor_set_layouts@.len(),
                set_layouts@ == self.descriptor_set_layouts@.take(i as int),
            decreases self.descriptor_set_layouts@.len() - i,
        {
            set_layouts.push(self.descriptor_set_layouts[i]);
            proof {
                assert(self.descriptor_set_layouts@.take(i + 1) =~= self.descriptor_set_layouts@
                    .take(i as int).push(self.descriptor_set_layouts@[i as int]));
            }
            i = i + 1;
        }
        proof {
            assert(self.descriptor_set_layouts@.take(i as int) =~= self.descriptor_set_layouts@);
        }

        let mut push_constant_ranges: Vec<PushConstantRange> = Vec::new();
        let mut j: usize = 0;
        while j < self.push_constants.len()
            invariant
                j <= self.push_constants@.len(),
                push_constant_ranges@ == self.push_constants@.take(j as int),
            decreases self.push_constants@.len() - j,
        {
            push_constant_ranges.push(self.push_constants[j]);
            proof {
                assert(self.push_constants@.take(j + 1) =~= self.push_constants@.take(
                    j as int,
                ).push(self.push_constants@[j as int]));
            }
            j = j + 1;
        }
        proof {
            assert(self.push_constants@.take(j as int) =~= self.push_constants@);
        }
        PipelineLayoutDescription { set_layouts, push_constant_ranges }
    }

    /// Compile the graphics pipeline against an already compiled layout
    /// and render pass.
    ///
    /// Vertex input is collected from the reads that are vertex buffers;
    /// everything else is fixed: triangle list, counter-clockwise front
    /// face, back-face culling, depth test and write with less-or-equal
    /// comparison, a single sample, dynamic viewport and scissor.
    /// Succeeds exactly when the shader set holds exactly one vertex and
    /// one fragment stage.
    pub fn build_graphics_pipeline(
        &self,
        pipeline_layout: PipelineLayoutDescription,
        render_pass: &RenderPassDescription,
        read_resources: &Vec<Resource>,
    ) -> (r: Option<GraphicsPipelineDescription>)
        requires
            indices_in_bounds(self.reads@, read_resources@.len() as int),
            render_pass.color_attachment_refs@.len() >= 1,
        ensures
            (r is Some <==> pipeline_stages_valid(stages_of(self.shaders@))),
            r matches Some(d) ==> {
                &&& d.stages@ == stages_of(self.shaders@)
                &&& d.vertex_bindings@ == vertex_bindings_of(self.reads@, read_resources@)
                &&& d.vertex_attributes@ == vertex_attributes_of(self.reads@, read_resources@)
                &&& d.layout == pipeline_layout
                &&& d.topology == PrimitiveTopology::TriangleList
                &&& d.front_face == FrontFace::CounterClockwise
                &&& d.cull_mode == CullMode::Back
                &&& d.polygon_mode == PolygonMode::Fill
                &&& d.depth_test_enable
                &&& d.depth_write_enable
                &&& d.depth_compare == CompareOp::LessOrEqual
                &&& d.samples == 1
                &&& d.dynamic_viewport
                &&& d.dynamic_scissor
            },
    {
        let ghost res = read_resources@;
        let mut vertex_bindings: Vec<VertexInputBinding> = Vec::new();
        let mut vertex_attributes: Vec<VertexInputAttribute> = Vec::new();

        let n = self.reads.len();
        let mut i: usize = 0;
        while i < n
            invariant
                n == self.reads@.len(),
                i <= n,
                indices_in_bounds(self.reads@, res.len() as int),
                res == read_resources@,
                vertex_bindings@ == vertex_bindings_of(self.reads@.take(i as int), res),
                vertex_attributes@ == vertex_attributes_of(self.reads@.take(i as int), res),
            decreases n - i,
        {
            let ghost prefix = self.reads@.take(i as int);
            proof {
                assert(self.reads@.take(i + 1).drop_last() =~= prefix);
                assert(self.reads@.take(i + 1).last() == self.reads@[i as int]);
            }
            let idx = self.reads[i];
            match &read_resources[idx] {
                Resource::VertexBuffer(vb) => {
                    vertex_bindings.push(vb.vertex_binding);
                    let m = vb.attribute_bindings.len();
                    let ghost attrs_before = vertex_attributes@;
                    let mut k: usize = 0;
                    while k < m
                        invariant
                            m == vb.attribute_bindings@.len(),
                            k <= m,
                            vertex_attributes@ == attrs_before + vb.attribute_bindings@.take(
                                k as int,
                            ),
                        decreases m - k,
                    {
                        vertex_attributes.push(vb.attribute_bindings[k]);
                        proof {
                            assert(attrs_before + vb.attribute_bindings@.take(k + 1)
                                =~= (attrs_before + vb.attribute_bindings@.take(k as int)).push(
                                vb.attribute_bindings@[k as int],
                            ));
                        }
                        k = k + 1;
                    }
                    proof {
                        assert(vb.attribute_bindings@.take(m as int) =~= vb.attribute_bindings@);
                        assert(vertex_attributes@ =~= vertex_attributes_of(
                            self.reads@.take(i + 1),
                            res,
                        ));
                    }
                },
                _ => {},
            }
            i = i + 1;
        }
        proof {
            assert(self.reads@.take(n as int) =~= self.reads@);
        }

        let mut stages: Vec<ShaderStage> = Vec::new();
        let mut vertex_count: usize = 0;
        let mut fragment_count: usize = 0;
        let sn = self.shaders.len();
        let mut s: usize = 0;
        while s < sn
            invariant
                sn == self.shaders@.len(),
                s <= sn,
                stages@ == stages_of(self.shaders@.take(s as int)),
                vertex_count == count_stage(stages@, ShaderStage::Vertex),
                fragment_count == count_stage(stages@, ShaderStage::Fragment),
                vertex_count <= s,
                fragment_count <= s,
            decreases sn - s,
        {
            proof {
                assert(self.shaders@.take(s + 1).drop_last() =~= self.shaders@.take(s as int));
                assert(self.shaders@.take(s + 1).last() == self.shaders@[s as int]);
            }
            let stage = self.shaders[s].stage;
            stages.push(stage);
            proof {
                assert(stages@.drop_last() =~= stages_of(self.shaders@.take(s as int)));
            }
            match stage {
                ShaderStage::Vertex => {
                    vertex_count = vertex_count + 1;
                },
                ShaderStage::Fragment => {
                    fragment_count = fragment_count + 1;
                },
            }
            s = s + 1;
        }
        proof {
            assert(self.shaders@.take(sn as int) =~= self.shaders@);
        }

        if vertex_count != 1 || fragment_count != 1 {
            return None;
        }

        Some(
            GraphicsPipelineDescription {
                stages,
                vertex_bindings,
                vertex_attributes,
                layout: pipeline_layout,
                topology: PrimitiveTopology::TriangleList,
                front_face: FrontFace::CounterClockwise,
                cull_mode: CullMode::Back,
                polygon_mode: PolygonMode::Fill,
                depth_test_enable: true,
                depth_write_enable: true,
                depth_compare: CompareOp::LessOrEqual,
                samples: 1,
                dynamic_viewport: true,
                dynamic_scissor: true,
            },
        )
    }
}

/// The image writes of a prefix are a prefix of the image writes.
proof fn lemma_image_writes_take_is_prefix(idxs: Seq<usize>, res: Seq<Resource>, i: int)
    requires
        0 <= i <= idxs.len(),
    ensures
        image_writes(idxs.take(i), res).len() <= image_writes(idxs, res).len(),
        forall|k: int|
            0 <= k < image_writes(idxs.take(i), res).len() ==> image_writes(idxs.take(i), res)[k]
                == image_writes(idxs, res)[k],
    decreases idxs.len() - i,
{
    if i == idxs.len() {
        assert(idxs.take(i) =~= idxs);
    } else {
        lemma_image_writes_take_is_prefix(idxs, res, i + 1);
        lemma_image_writes_prefix(idxs, res, i);
    }
}

/// Walking one more write extends the image list by at most that write.
proof fn lemma_image_writes_prefix(idxs: Seq<usize>, res: Seq<Resource>, i: int)
    requires
        0 <= i < idxs.len(),
    ensures
        image_writes(idxs.take(i + 1), res) == (match res[idxs[i] as int] {
            Resource::Image(img) => image_writes(idxs.take(i), res).push(img),
            _ => image_writes(idxs.take(i), res),
        }),
{
    assert(idxs.take(i + 1).drop_last() =~= idxs.take(i));
    assert(idxs.take(i + 1).last() == idxs[i]);
}

} // verus!
