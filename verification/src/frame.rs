//! Per-frame orchestration: acquire, record, submit, present.
//!
//! One frame moves through the phases Idle → Acquiring → Recording →
//! Submitted; presentation completes the cycle back to Idle.  The
//! orchestrator makes every
//! decision of that loop — whether to skip a frame, when to rebuild the
//! swapchain, how to react to out-of-date and suboptimal signals — while
//! the driver calls themselves happen outside and report their outcome
//! back in.  The two transient conditions (out-of-date, suboptimal) defer
//! work to the next frame; every other failure is fatal to the caller.

use crate::surface::{Extent2D, Surface};
use crate::swapchain::{PresentMode, Swapchain};
use vstd::prelude::*;

verus! {

/// Where a frame stands in its lifecycle.
#[derive(Debug, Clone, Copy, PartialEq, Eq, Structural)]
pub enum FramePhase {
    Idle,
    Acquiring,
    Recording,
    Submitted,
}

/// What the driver reported for an image acquisition.
#[derive(Debug, Clone, Copy, PartialEq, Eq, Structural)]
pub enum AcquireResult {
    /// An image is available at this index.
    Success(u32),
    /// An image is available at this index, but the swapchain no longer
    /// matches the surface perfectly.
    Suboptimal(u32),
    /// The swapchain can no longer present at all.
    OutOfDate,
}

/// What the driver reported for a presentation.
#[derive(Debug, Clone, Copy, PartialEq, Eq, Structural)]
pub enum PresentResult {
    Success,
    OutOfDate,
    /// Any error other than out-of-date.
    Other,
}

/// What the caller should do to begin a frame.
#[derive(Debug, Clone, Copy, PartialEq, Eq, Structural)]
pub enum FrameAction {
    /// The window has no drawable area: drop this frame, do not acquire.
    SkipFrame,
    /// Rebuild the swapchain before acquiring.
    RecreateSwapchain,
    /// Acquire the next image.
    Acquire,
}

/// The semaphores of one frame.
#[derive(Debug, Clone, Copy, PartialEq, Eq, Structural)]
pub enum SemaphoreId {
    ImageAcquired,
    RenderComplete,
}

/// The fences of one frame.
#[derive(Debug, Clone, Copy, PartialEq, Eq, Structural)]
pub enum FenceId {
    SetupReuse,
    DrawReuse,
}

/// How a frame's command buffer is submitted: which semaphore it waits
/// on and at which stage, which it signals, and which fence guards reuse.
#[derive(Debug, Clone, Copy, PartialEq, Eq, Structural)]
pub struct SubmitPlan {
    pub wait_semaphore: SemaphoreId,
    pub wait_stage_mask: u32,
    pub signal_semaphore: SemaphoreId,
    pub fence: FenceId,
}

/// The one submission shape every frame uses: wait for the acquired
/// image at the color-attachment-output stage, signal render completion,
/// guard reuse with the draw fence.
pub open spec fn frame_submit_plan() -> SubmitPlan {
    SubmitPlan {
        wait_semaphore: SemaphoreId::ImageAcquired,
        wait_stage_mask: crate::stage::PIPELINE_STAGE_COLOR_ATTACHMENT_OUTPUT,
        signal_semaphore: SemaphoreId::RenderComplete,
        fence: FenceId::DrawReuse,
    }
}

/// Drives the frame loop: tracks the phase, whether the swapchain must be
/// rebuilt at the next frame boundary, and which image this frame uses.
#[derive(Debug)]
pub struct FrameOrchestrator {
    pub phase: FramePhase,
    pub recreate_swapchain: bool,
    pub image_count: u32,
    pub pending_image: Option<u32>,
}

impl FrameOrchestrator {
    /// Start idle over a live swapchain with `image_count` images.
    pub fn new(image_count: u32) -> (r: Self)
        ensures
            r.phase == FramePhase::Idle,
            !r.recreate_swapchain,
            r.image_count == image_count,
            r.pending_image is None,
    {
        FrameOrchestrator {
            phase: FramePhase::Idle,
            recreate_swapchain: false,
            image_count,
            pending_image: None,
        }
    }

    /// Note a resize: the swapchain is rebuilt at the next frame
    /// boundary, never mid-frame.
    pub fn notify_resized(&mut self)
        ensures
            final(self).recreate_swapchain,
            final(self).phase == old(self).phase,
            final(self).image_count == old(self).image_count,
            final(self).pending_image == old(self).pending_image,
    {
        self.recreate_swapchain = true;
    }

    /// Decide how to begin a frame.  A window with no drawable area means
    /// the frame is dropped without touching the swapchain; a pending
    /// rebuild happens before anything is acquired; otherwise acquisition
    /// proceeds.
    pub fn begin_frame(&mut self, window_extent: Extent2D) -> (r: FrameAction)
        requires
            old(self).phase == FramePhase::Idle,
        ensures
            final(self).recreate_swapchain == old(self).recreate_swapchain,
            final(self).image_count == old(self).image_count,
            final(self).pending_image == old(self).pending_image,
            (window_extent.width == 0 || window_extent.height == 0) ==> (r == FrameAction::SkipFrame
                && final(self).phase == FramePhase::Idle),
            (window_extent.width > 0 && window_extent.height > 0 && old(self).recreate_swapchain)
                ==> (r == FrameAction::RecreateSwapchain && final(self).phase == FramePhase::Idle),
            (window_extent.width > 0 && window_extent.height > 0 && !old(self).recreate_swapchain)
                ==> (r == FrameAction::Acquire && final(self).phase == FramePhase::Acquiring),
    {
        if window_extent.width == 0 || window_extent.height == 0 {
            return FrameAction::SkipFrame;
        }
        if self.recreate_swapchain {
            return FrameAction::RecreateSwapchain;
        }
        self.phase = FramePhase::Acquiring;
        FrameAction::Acquire
    }

    /// Rebuild the swapchain against the surface's current properties.
    /// On success the pending-rebuild flag clears and the retired ring is
    /// handed back for teardown; when the adapter rejects the dimensions
    /// nothing changes and the rebuild is retried at the next frame
    /// boundary.
    pub fn resize_setup(
        &mut self,
        swapchain: &mut Swapchain,
        surface: &Surface,
        present_modes: &Vec<PresentMode>,
    ) -> (retired: Option<Swapchain>)
        requires
            old(self).phase == FramePhase::Idle,
            old(swapchain).image_count > 0,
            surface.properties is Some,
        ensures
            final(self).phase == FramePhase::Idle,
            final(self).pending_image == old(self).pending_image,
            ({
                let p = surface.properties->0;
                if crate::swapchain::extent_supported(p.capabilities, p.resolution) {
                    &&& retired == Some(*old(swapchain))
                    &&& crate::swapchain::consistent_with(*final(swapchain), p)
                    &&& !final(self).recreate_swapchain
                    &&& final(self).image_count == final(swapchain).image_count
                } else {
                    &&& retired is None
                    &&& *final(swapchain) == *old(swapchain)
                    &&& final(self).recreate_swapchain == old(self).recreate_swapchain
                    &&& final(self).image_count == old(self).image_count
                }
            }),
    {
        let retired = swapchain.recreate(surface, present_modes);
        match &retired {
            Some(_) => {
                self.recreate_swapchain = false;
                self.image_count = swapchain.image_count;
            },
            None => {},
        }
        retired
    }

    /// React to what acquisition reported.  Out-of-date aborts the frame
    /// with nothing submitted and schedules a rebuild; suboptimal keeps
    /// the frame but schedules a rebuild for the next frame boundary;
    /// success hands back the image to record against.
    pub fn acquire_next_swapchain_image(&mut self, result: AcquireResult) -> (r: Option<u32>)
        requires
            old(self).phase == FramePhase::Acquiring,
            result matches AcquireResult::Success(i) ==> i < old(self).image_count,
            result matches AcquireResult::Suboptimal(i) ==> i < old(self).image_count,
        ensures
            final(self).image_count == old(self).image_count,
            match result {
                AcquireResult::Success(i) => {
                    &&& r == Some(i)
                    &&& final(self).phase == FramePhase::Recording
                    &&& final(self).pending_image == Some(i)
                    &&& final(self).recreate_swapchain == old(self).recreate_swapchain
                },
                AcquireResult::Suboptimal(i) => {
                    &&& r == Some(i)
                    &&& final(self).phase == FramePhase::Recording
                    &&& final(self).pending_image == Some(i)
                    &&& final(self).recreate_swapchain
                },
                AcquireResult::OutOfDate => {
                    &&& r is None
                    &&& final(self).phase == FramePhase::Idle
                    &&& final(self).pending_image is None
                    &&& final(self).recreate_swapchain
                },
            },
    {
        match result {
            AcquireResult::Success(i) => {
                self.phase = FramePhase::Recording;
                self.pending_image = Some(i);
                Some(i)
            },
            AcquireResult::Suboptimal(i) => {
                self.recreate_swapchain = true;
                self.phase = FramePhase::Recording;
                self.pending_image = Some(i);
                Some(i)
            },
            AcquireResult::OutOfDate => {
                self.recreate_swapchain = true;
                self.phase = FramePhase::Idle;
                self.pending_image = None;
                None
            },
        }
    }

    /// The recorded command buffer is handed to the queue: every frame
    /// submits with the same synchronisation shape.
    pub fn submit(&mut self) -> (r: SubmitPlan)
        requires
            old(self).phase == FramePhase::Recording,
        ensures
            r == frame_submit_plan(),
            final(self).phase == FramePhase::Submitted,
            final(self).pending_image == old(self).pending_image,
            final(self).recreate_swapchain == old(self).recreate_swapchain,
            final(self).image_count == old(self).image_count,
    {
        self.phase = FramePhase::Submitted;
        SubmitPlan {
            wait_semaphore: SemaphoreId::ImageAcquired,
            wait_stage_mask: crate::stage::PIPELINE_STAGE_COLOR_ATTACHMENT_OUTPUT,
            signal_semaphore: SemaphoreId::RenderComplete,
            fence: FenceId::DrawReuse,
        }
    }

    /// React to what presentation reported.  Out-of-date schedules a
    /// rebuild; anything else but success is fatal and the caller halts.
    /// The frame is over either way.
    pub fn handle_present(&mut self, result: PresentResult) -> (fatal: bool)
        requires
            old(self).phase == FramePhase::Submitted,
        ensures
            final(self).phase == FramePhase::Idle,
            final(self).pending_image is None,
            final(self).image_count == old(self).image_count,
            match result {
                PresentResult::Success => !fatal && final(self).recreate_swapchain == old(
                    self,
                ).recreate_swapchain,
                PresentResult::OutOfDate => !fatal && final(self).recreate_swapchain,
                PresentResult::Other => fatal,
            },
    {
        self.phase = FramePhase::Idle;
        self.pending_image = None;
        match result {
            PresentResult::Success => false,
            PresentResult::OutOfDate => {
                self.recreate_swapchain = true;
                false
            },
            PresentResult::Other => true,
        }
    }
}

} // verus!
