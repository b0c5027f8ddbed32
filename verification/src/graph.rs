//! The render graph: stages and the resources they reference.
//!
//! The graph owns the swapchain, the compiled stages, and two resource
//! lists; stages reference resources by index into those lists, so the
//! registration order is part of the graph's meaning.

use crate::stage::{GraphicsStage, Resource};
use crate::swapchain::Swapchain;
use vstd::prelude::*;

verus! {

/// A render graph bound to one swapchain.
#[derive(Debug)]
pub struct RenderGraph {
    pub swapchain: Swapchain,
    pub command_pool: u64,
    pub stages: Vec<GraphicsStage>,
    pub reads: Vec<Resource>,
    pub writes: Vec<Resource>,
}

impl RenderGraph {
    /// An empty graph over a live swapchain.
    pub fn new(swapchain: Swapchain, command_pool: u64) -> (r: Self)
        ensures
            r.swapchain == swapchain,
            r.command_pool == command_pool,
            r.stages@ == Seq::<GraphicsStage>::empty(),
            r.reads@ == Seq::<Resource>::empty(),
            r.writes@ == Seq::<Resource>::empty(),
    {
        RenderGraph {
            swapchain,
            command_pool,
            stages: Vec::new(),
            reads: Vec::new(),
            writes: Vec::new(),
        }
    }

    /// Register a readable resource; stages refer to it by the returned
    /// index.
    pub fn reads_from(&mut self, resource: Resource) -> (idx: usize)
        ensures
            idx == old(self).reads@.len(),
            final(self).reads@ == old(self).reads@.push(resource),
            final(self).writes == old(self).writes,
            final(self).stages == old(self).stages,
            final(self).swapchain == old(self).swapchain,
            final(self).command_pool == old(self).command_pool,
    {
        let idx = self.reads.len();
        self.reads.push(resource);
        idx
    }

    /// Register a writable resource; stages refer to it by the returned
    /// index.
    pub fn writes_to(&mut self, resource: Resource) -> (idx: usize)
        ensures
            idx == old(self).writes@.len(),
            final(self).writes@ == old(self).writes@.push(resource),
            final(self).reads == old(self).reads,
            final(self).stages == old(self).stages,
            final(self).swapchain == old(self).swapchain,
            final(self).command_pool == old(self).command_pool,
    {
        let idx = self.writes.len();
        self.writes.push(resource);
        idx
    }

    /// Rebuild the graph's swapchain against the surface's current
    /// properties; a no-op when the adapter rejects the dimensions.  The
    /// retired ring is handed back for teardown after the new one is
    /// live.
    pub fn recreate_swapchain(
        &mut self,
        surface: &crate::surface::Surface,
        present_modes: &Vec<crate::swapchain::PresentMode>,
    ) -> (retired: Option<Swapchain>)
        requires
            old(self).swapchain.image_count > 0,
            surface.properties is Some,
        ensures
            final(self).reads == old(self).reads,
            final(self).writes == old(self).writes,
            final(self).stages == old(self).stages,
            final(self).command_pool == old(self).command_pool,
            ({
                let p = surface.properties->0;
                if crate::swapchain::extent_supported(p.capabilities, p.resolution) {
                    &&& retired == Some(old(self).swapchain)
                    &&& crate::swapchain::consistent_with(final(self).swapchain, p)
                } else {
                    &&& retired is None
                    &&& final(self).swapchain == old(self).swapchain
                }
            }),
    {
        self.swapchain.recreate(surface, present_modes)
    }

    /// Adopt a compiled stage; stages are recorded in graph order.
    pub fn add_stage(&mut self, stage: GraphicsStage)
        ensures
            final(self).stages@ == old(self).stages@.push(stage),
            final(self).reads == old(self).reads,
            final(self).writes == old(self).writes,
            final(self).swapchain == old(self).swapchain,
            final(self).command_pool == old(self).command_pool,
    {
        self.stages.push(stage);
    }
}

} // verus!
