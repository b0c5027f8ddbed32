//! A verified core for a real-time GPU rendering engine.
//!
//! The crate models the device-facing state of a renderer — surface and
//! swapchain negotiation, memory-type selection, buffers and images with
//! layout transitions, the declarative render-stage builder, the per-frame
//! orchestration state machine, and the world-render cache — as plain data
//! with proved contracts.  The actual driver calls are issued by a thin
//! unverified shell that follows the decisions made here.

pub mod buffer;
pub mod device;
pub mod environment;
pub mod error;
pub mod frame;
pub mod graph;
pub mod image;
pub mod import;
pub mod light;
pub mod material;
pub mod memory;
pub mod mesh;
pub mod pipeline;
pub mod shader;
pub mod stage;
pub mod surface;
pub mod swapchain;
pub mod world_render;

use vstd::prelude::*;

verus! {

/// How the application asks for its window.
#[derive(Debug)]
pub struct AppConfig {
    pub width: u32,
    pub height: u32,
    pub title: String,
}

impl Default for AppConfig {
    fn default() -> (r: Self)
        ensures
            r.width == 1560,
            r.height == 980,
            r.title@ == "Aperture Renderer"@,
    {
        AppConfig { width: 1560, height: 980, title: "Aperture Renderer".to_owned() }
    }
}

} // verus!
