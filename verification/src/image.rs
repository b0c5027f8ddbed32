//! Device images and the layout-transition protocol.
//!
//! An image tracks its current layout and may carry one pending transition
//! (aspect, access mask, initial and final layout).  Recording a pending
//! transition moves the image to the transition's final layout; the
//! protocol demands that the image actually is in the transition's initial
//! layout when the barrier is recorded (an `Undefined` initial layout is
//! the exception: it discards contents and is allowed from any state).
//! A layout mismatch is a correctness bug, not a runtime error, so it is
//! ruled out by precondition rather than reported.

use crate::surface::Extent2D;
use vstd::prelude::*;

verus! {

/// Image-usage bits, as the device encodes them.
pub const IMAGE_USAGE_TRANSFER_SRC: u32 = 0x1;

pub const IMAGE_USAGE_TRANSFER_DST: u32 = 0x2;

pub const IMAGE_USAGE_SAMPLED: u32 = 0x4;

pub const IMAGE_USAGE_COLOR_ATTACHMENT: u32 = 0x10;

pub const IMAGE_USAGE_DEPTH_STENCIL_ATTACHMENT: u32 = 0x20;

/// Image-aspect bits.
pub const IMAGE_ASPECT_COLOR: u32 = 0x1;

pub const IMAGE_ASPECT_DEPTH: u32 = 0x2;

/// How the GPU is currently permitted to access an image.
#[derive(Debug, Clone, Copy, PartialEq, Eq, Structural)]
pub enum ImageLayout {
    Undefined,
    General,
    ColorAttachmentOptimal,
    DepthStencilAttachmentOptimal,
    DepthAttachmentOptimal,
    ShaderReadOnlyOptimal,
    TransferSrcOptimal,
    TransferDstOptimal,
    PresentSrc,
}

/// A three-dimensional image size.
#[derive(Debug, Clone, Copy, PartialEq, Eq, Structural)]
pub struct Extent3D {
    pub width: u32,
    pub height: u32,
    pub depth: u32,
}

/// A pending layout change, not yet recorded.
#[derive(Debug, Clone, Copy, PartialEq, Eq, Structural)]
pub struct ImageTransition {
    pub aspect: u32,
    pub access: u32,
    pub initial_layout: ImageLayout,
    pub final_layout: ImageLayout,
}

/// A device image: format, size, usage, current layout, and an optional
/// pending transition.
#[derive(Debug, Clone, Copy, PartialEq, Eq, Structural)]
pub struct Image {
    pub format: u32,
    pub extent: Extent3D,
    pub usage: u32,
    pub samples: u32,
    pub aspect: u32,
    pub layout: ImageLayout,
    pub transition: Option<ImageTransition>,
    pub back_buffer: bool,
}

impl Image {
    /// Allocate an image; it starts in the `Undefined` layout with no
    /// pending transition and is not a back buffer.
    pub fn new(format: u32, extent: Extent3D, usage: u32, samples: u32, aspect: u32) -> (r: Self)
        ensures
            r.format == format,
            r.extent == extent,
            r.usage == usage,
            r.samples == samples,
            r.aspect == aspect,
            r.layout == ImageLayout::Undefined,
            r.transition is None,
            !r.back_buffer,
    {
        Image {
            format,
            extent,
            usage,
            samples,
            aspect,
            layout: ImageLayout::Undefined,
            transition: None,
            back_buffer: false,
        }
    }

    /// Attach a pending layout change; nothing is recorded yet.
    pub fn with_transition(
        self,
        aspect: u32,
        access: u32,
        initial_layout: ImageLayout,
        final_layout: ImageLayout,
    ) -> (r: Self)
        ensures
            r.transition == (Some(
                ImageTransition { aspect, access, initial_layout, final_layout },
            )),
            r.format == self.format,
            r.extent == self.extent,
            r.usage == self.usage,
            r.samples == self.samples,
            r.aspect == self.aspect,
            r.layout == self.layout,
            r.back_buffer == self.back_buffer,
    {
        let mut r = self;
        r.transition = Some(ImageTransition { aspect, access, initial_layout, final_layout });
        r
    }

    /// Mark this image as the swapchain back buffer.
    pub fn set_as_back_buffer(&mut self, _status: bool)
        ensures
            final(self).back_buffer,
            final(self).format == old(self).format,
            final(self).extent == old(self).extent,
            final(self).usage == old(self).usage,
            final(self).samples == old(self).samples,
            final(self).aspect == old(self).aspect,
            final(self).layout == old(self).layout,
            final(self).transition == old(self).transition,
    {
        self.back_buffer = true;
    }

    /// Record the pending transition: the image moves to the transition's
    /// final layout.  Requires a pending transition whose initial layout
    /// matches the image's current layout (or discards via `Undefined`).
    pub fn transition(&mut self)
        requires
            old(self).transition matches Some(t) && (t.initial_layout == ImageLayout::Undefined
                || old(self).layout == t.initial_layout),
        ensures
            final(self).layout == old(self).transition->0.final_layout,
            final(self).transition == old(self).transition,
            final(self).format == old(self).format,
            final(self).extent == old(self).extent,
            final(self).usage == old(self).usage,
            final(self).samples == old(self).samples,
            final(self).aspect == old(self).aspect,
            final(self).back_buffer == old(self).back_buffer,
    {
        let final_layout = match &self.transition {
            Some(t) => t.final_layout,
            None => unreached(),
        };
        self.layout = final_layout;
    }

    /// The two-dimensional size of the image.
    pub fn dimensions(&self) -> (r: Extent2D)
        ensures
            r.width == self.extent.width,
            r.height == self.extent.height,
    {
        Extent2D { width: self.extent.width, height: self.extent.height }
    }
}

} // verus!
