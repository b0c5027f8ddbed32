//! The swapchain: a ring of presentable images bound to a surface.
//!
//! The model keeps the negotiated configuration of the ring — format,
//! extent, image count, present mode, pre-transform.  Its invariant is that
//! the configuration always matches the surface properties it was built
//! against.  Recreation on resize must keep presentation continuity: the
//! old ring is handed back to the caller for teardown only once the new one
//! is live, and unsupported dimensions make recreation a no-op so the
//! caller can retry on the next resize event.

use crate::surface::{Extent2D, Surface, SurfaceCapabilities, SurfaceFormat, SurfaceProperties};
use vstd::prelude::*;

verus! {

/// How presentation requests are queued.
#[derive(Debug, Clone, Copy, PartialEq, Eq, Structural)]
pub enum PresentMode {
    Immediate,
    Mailbox,
    Fifo,
    FifoRelaxed,
}

/// The mode list contains a low-latency non-blocking (mailbox) entry.
pub open spec fn has_mailbox(modes: Seq<PresentMode>) -> bool {
    exists|i: int| 0 <= i < modes.len() && modes[i] == PresentMode::Mailbox
}

/// Mailbox when the adapter lists it, else the universally supported
/// blocking FIFO mode.
pub fn choose_present_mode(modes: &Vec<PresentMode>) -> (r: PresentMode)
    ensures
        r == (if has_mailbox(modes@) {
            PresentMode::Mailbox
        } else {
            PresentMode::Fifo
        }),
{
    let n = modes.len();
    let mut i: usize = 0;
    while i < n
        invariant
            n == modes@.len(),
            i <= n,
            forall|j: int| 0 <= j < i ==> modes@[j] != PresentMode::Mailbox,
        decreases n - i,
    {
        if matches!(modes[i], PresentMode::Mailbox) {
            return PresentMode::Mailbox;
        }
        i = i + 1;
    }
    PresentMode::Fifo
}

/// The configuration of a live ring of presentable images.
#[derive(Debug, Clone, Copy, PartialEq, Eq, Structural)]
pub struct Swapchain {
    pub format: SurfaceFormat,
    pub extent: Extent2D,
    pub image_count: u32,
    pub present_mode: PresentMode,
    pub pre_transform: u32,
}

/// The swapchain's configuration matches the given surface properties.
pub open spec fn consistent_with(s: Swapchain, p: SurfaceProperties) -> bool {
    &&& s.format == p.format
    &&& s.extent == p.resolution
    &&& s.image_count == p.desired_image_count
    &&& s.pre_transform == p.pre_transform
}

/// The adapter accepts a ring of this extent.
pub open spec fn extent_supported(c: SurfaceCapabilities, e: Extent2D) -> bool {
    &&& 0 < e.width
    &&& 0 < e.height
    &&& c.min_image_extent.width <= e.width <= c.max_image_extent.width
    &&& c.min_image_extent.height <= e.height <= c.max_image_extent.height
}

fn extent_is_supported(c: &SurfaceCapabilities, e: Extent2D) -> (r: bool)
    ensures
        r == extent_supported(*c, e),
{
    0 < e.width && 0 < e.height && c.min_image_extent.width <= e.width && e.width
        <= c.max_image_extent.width && c.min_image_extent.height <= e.height && e.height
        <= c.max_image_extent.height
}

impl Swapchain {
    /// Build the ring against a surface whose properties are negotiated.
    pub fn new(surface: &Surface, present_modes: &Vec<PresentMode>) -> (r: Self)
        requires
            surface.properties is Some,
        ensures
            consistent_with(r, surface.properties->0),
            r.present_mode == (if has_mailbox(present_modes@) {
                PresentMode::Mailbox
            } else {
                PresentMode::Fifo
            }),
    {
        let present_mode = choose_present_mode(present_modes);
        let p = match &surface.properties {
            Some(p) => p,
            None => unreached(),
        };
        Swapchain {
            format: p.format,
            extent: p.resolution,
            image_count: p.desired_image_count,
            present_mode,
            pre_transform: p.pre_transform,
        }
    }

    /// Rebuild the ring against the surface's current properties.
    ///
    /// When the adapter rejects the new dimensions this is a no-op and
    /// `None` is returned: the caller retries on the next resize event.  On
    /// success the previous, still-live configuration is handed back for
    /// teardown, so the old ring outlives the moment the new one is usable.
    pub fn recreate(&mut self, surface: &Surface, present_modes: &Vec<PresentMode>) -> (retired:
        Option<Swapchain>)
        requires
            old(self).image_count > 0,
            surface.properties is Some,
        ensures
            ({
                let p = surface.properties->0;
                if extent_supported(p.capabilities, p.resolution) {
                    &&& retired == Some(*old(self))
                    &&& consistent_with(*final(self), p)
                    &&& final(self).present_mode == (if has_mailbox(present_modes@) {
                        PresentMode::Mailbox
                    } else {
                        PresentMode::Fifo
                    })
                } else {
                    &&& retired is None
                    &&& *final(self) == *old(self)
                }
            }),
    {
        let supported = match &surface.properties {
            Some(p) => extent_is_supported(&p.capabilities, p.resolution),
            None => unreached(),
        };
        if !supported {
            return None;
        }
        let fresh = Swapchain::new(surface, present_modes);
        let retired = *self;
        *self = fresh;
        Some(retired)
    }
}

} // verus!
