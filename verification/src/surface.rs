//! Presentation-surface properties.
//!
//! The surface caches the properties negotiated against the adapter: the
//! chosen color format, the pixel resolution, the number of presentable
//! images to request, and the pre-transform.  The properties are recomputed
//! from freshly queried capabilities on every resize; a swapchain is only
//! ever built against the cached properties.

use vstd::prelude::*;

verus! {

/// The identity bit of a surface-transform bitmask.
pub const TRANSFORM_IDENTITY: u32 = 0x1;

/// A pixel extent.  A width of `u32::MAX` in an adapter-reported current
/// extent means the surface size is undefined and the window decides.
#[derive(Debug, Clone, Copy, PartialEq, Eq, Structural)]
pub struct Extent2D {
    pub width: u32,
    pub height: u32,
}

/// A color format paired with a color space, both as raw enumeration codes.
#[derive(Debug, Clone, Copy, PartialEq, Eq, Structural)]
pub struct SurfaceFormat {
    pub format: u32,
    pub color_space: u32,
}

/// Capabilities the adapter reports for a surface.
#[derive(Debug, Clone, Copy, PartialEq, Eq, Structural)]
pub struct SurfaceCapabilities {
    pub min_image_count: u32,
    /// Zero means the adapter imposes no upper bound.
    pub max_image_count: u32,
    pub current_extent: Extent2D,
    pub min_image_extent: Extent2D,
    pub max_image_extent: Extent2D,
    /// Bitmask of supported pre-transforms.
    pub supported_transforms: u32,
    pub current_transform: u32,
}

/// The properties a swapchain is built against.
#[derive(Debug, Clone, Copy, PartialEq, Eq, Structural)]
pub struct SurfaceProperties {
    pub capabilities: SurfaceCapabilities,
    pub resolution: Extent2D,
    pub format: SurfaceFormat,
    pub desired_image_count: u32,
    pub pre_transform: u32,
}

/// A presentation surface; `properties` is `None` until the first
/// negotiation and is recomputed on resize.
#[derive(Debug)]
pub struct Surface {
    pub properties: Option<SurfaceProperties>,
}

/// `v` clamped to the inclusive range `[lo, hi]`.
pub open spec fn clamp_u32(v: u32, lo: u32, hi: u32) -> u32 {
    if v < lo {
        lo
    } else if v > hi {
        hi
    } else {
        v
    }
}

/// One more image than the minimum, capped by the adapter's maximum when
/// that maximum is nonzero.
pub open spec fn desired_image_count_of(c: SurfaceCapabilities) -> u32 {
    if c.max_image_count > 0 && c.min_image_count + 1 > c.max_image_count {
        c.max_image_count
    } else {
        (c.min_image_count + 1) as u32
    }
}

/// The adapter's current extent, unless the adapter reports it undefined,
/// in which case the requested size clamped to the supported range.
pub open spec fn resolution_of(c: SurfaceCapabilities, width: u32, height: u32) -> Extent2D {
    if c.current_extent.width == u32::MAX {
        Extent2D {
            width: clamp_u32(width, c.min_image_extent.width, c.max_image_extent.width),
            height: clamp_u32(height, c.min_image_extent.height, c.max_image_extent.height),
        }
    } else {
        c.current_extent
    }
}

/// Identity if the adapter supports it, else the adapter's current
/// transform.
pub open spec fn pre_transform_of(c: SurfaceCapabilities) -> u32 {
    if c.supported_transforms & TRANSFORM_IDENTITY != 0 {
        TRANSFORM_IDENTITY
    } else {
        c.current_transform
    }
}

fn clamp_width(v: u32, lo: u32, hi: u32) -> (r: u32)
    ensures
        r == clamp_u32(v, lo, hi),
{
    if v < lo {
        lo
    } else if v > hi {
        hi
    } else {
        v
    }
}

impl Surface {
    /// A surface with no negotiated properties yet.
    pub fn new() -> (r: Self)
        ensures
            r.properties is None,
    {
        Surface { properties: None }
    }

    /// Recompute the cached properties from freshly queried capabilities.
    ///
    /// `formats` is the adapter's surface-format list (the first entry is
    /// chosen); `width` and `height` are the requested window size, used
    /// only when the adapter leaves the extent undefined.
    pub fn init_properties(
        &mut self,
        formats: &Vec<SurfaceFormat>,
        capabilities: SurfaceCapabilities,
        width: u32,
        height: u32,
    )
        requires
            formats@.len() > 0,
            capabilities.min_image_count < u32::MAX,
        ensures
            final(self).properties matches Some(p) && {
                &&& p.capabilities == capabilities
                &&& p.format == formats@[0]
                &&& p.desired_image_count == desired_image_count_of(capabilities)
                &&& p.resolution == resolution_of(capabilities, width, height)
                &&& p.pre_transform == pre_transform_of(capabilities)
            },
    {
        let format = formats[0];

        let mut desired_image_count = capabilities.min_image_count + 1;
        if capabilities.max_image_count > 0 && desired_image_count > capabilities.max_image_count {
            desired_image_count = capabilities.max_image_count;
        }

        let resolution = if capabilities.current_extent.width == u32::MAX {
            Extent2D {
                width: clamp_width(
                    width,
                    capabilities.min_image_extent.width,
                    capabilities.max_image_extent.width,
                ),
                height: clamp_width(
                    height,
                    capabilities.min_image_extent.height,
                    capabilities.max_image_extent.height,
                ),
            }
        } else {
            capabilities.current_extent
        };

        let pre_transform = if capabilities.supported_transforms & TRANSFORM_IDENTITY != 0 {
            TRANSFORM_IDENTITY
        } else {
            capabilities.current_transform
        };

        self.properties = Some(
            SurfaceProperties {
                capabilities,
                resolution,
                format,
                desired_image_count,
                pre_transform,
            },
        );
    }

    /// The negotiated resolution, if properties have been computed.
    pub fn resolution(&self) -> (r: Option<Extent2D>)
        ensures
            match self.properties {
                Some(p) => r == Some(p.resolution),
                None => r is None,
            },
    {
        match &self.properties {
            Some(p) => Some(p.resolution),
            None => None,
        }
    }

    /// The negotiated color format, if properties have been computed.
    pub fn format(&self) -> (r: Option<SurfaceFormat>)
        ensures
            match self.properties {
                Some(p) => r == Some(p.format),
                None => r is None,
            },
    {
        match &self.properties {
            Some(p) => Some(p.format),
            None => None,
        }
    }

    /// The negotiated image count, if properties have been computed.
    pub fn desired_image_count(&self) -> (r: Option<u32>)
        ensures
            match self.properties {
                Some(p) => r == Some(p.desired_image_count),
                None => r is None,
            },
    {
        match &self.properties {
            Some(p) => Some(p.desired_image_count),
            None => None,
        }
    }

    /// The negotiated pre-transform, if properties have been computed.
    pub fn pre_transform(&self) -> (r: Option<u32>)
        ensures
            match self.properties {
                Some(p) => r == Some(p.pre_transform),
                None => r is None,
            },
    {
        match &self.properties {
            Some(p) => Some(p.pre_transform),
            None => None,
        }
    }
}

} // verus!
