use aperture::surface::{
    Extent2D, Surface, SurfaceCapabilities, SurfaceFormat, TRANSFORM_IDENTITY,
};
use aperture::swapchain::{choose_present_mode, PresentMode, Swapchain};

fn caps_800_600() -> SurfaceCapabilities {
    SurfaceCapabilities {
        min_image_count: 2,
        max_image_count: 8,
        current_extent: Extent2D { width: 800, height: 600 },
        min_image_extent: Extent2D { width: 1, height: 1 },
        max_image_extent: Extent2D { width: 4096, height: 4096 },
        supported_transforms: TRANSFORM_IDENTITY,
        current_transform: TRANSFORM_IDENTITY,
    }
}

fn formats() -> Vec<SurfaceFormat> {
    vec![
        SurfaceFormat { format: 44, color_space: 0 },
        SurfaceFormat { format: 50, color_space: 0 },
    ]
}

#[test]
fn init_properties_picks_first_format_and_min_plus_one_images() {
    let mut surface = Surface::new();
    assert!(surface.resolution().is_none());
    surface.init_properties(&formats(), caps_800_600(), 1560, 980);

    assert_eq!(surface.format().unwrap(), SurfaceFormat { format: 44, color_space: 0 });
    assert_eq!(surface.desired_image_count().unwrap(), 3);
    // The adapter reports a concrete extent, so the request is ignored.
    assert_eq!(surface.resolution().unwrap(), Extent2D { width: 800, height: 600 });
    assert_eq!(surface.pre_transform().unwrap(), TRANSFORM_IDENTITY);
}

#[test]
fn init_properties_clamps_image_count_to_nonzero_max() {
    let mut caps = caps_800_600();
    caps.min_image_count = 4;
    caps.max_image_count = 4;
    let mut surface = Surface::new();
    surface.init_properties(&formats(), caps, 800, 600);
    assert_eq!(surface.desired_image_count().unwrap(), 4);
}

#[test]
fn init_properties_zero_max_means_unbounded() {
    let mut caps = caps_800_600();
    caps.min_image_count = 4;
    caps.max_image_count = 0;
    let mut surface = Surface::new();
    surface.init_properties(&formats(), caps, 800, 600);
    assert_eq!(surface.desired_image_count().unwrap(), 5);
}

#[test]
fn init_properties_undefined_extent_falls_back_to_request_clamped() {
    let mut caps = caps_800_600();
    caps.current_extent = Extent2D { width: u32::MAX, height: u32::MAX };
    caps.max_image_extent = Extent2D { width: 1024, height: 1024 };
    let mut surface = Surface::new();
    surface.init_properties(&formats(), caps, 1560, 980);
    assert_eq!(surface.resolution().unwrap(), Extent2D { width: 1024, height: 980 });
}

#[test]
fn init_properties_uses_current_transform_when_identity_unsupported() {
    let mut caps = caps_800_600();
    caps.supported_transforms = 0x4;
    caps.current_transform = 0x4;
    let mut surface = Surface::new();
    surface.init_properties(&formats(), caps, 800, 600);
    assert_eq!(surface.pre_transform().unwrap(), 0x4);
}

#[test]
fn present_mode_prefers_mailbox() {
    let modes = vec![PresentMode::Fifo, PresentMode::Mailbox, PresentMode::Immediate];
    assert_eq!(choose_present_mode(&modes), PresentMode::Mailbox);
}

#[test]
fn present_mode_falls_back_to_fifo() {
    let modes = vec![PresentMode::Fifo, PresentMode::Immediate];
    assert_eq!(choose_present_mode(&modes), PresentMode::Fifo);
    assert_eq!(choose_present_mode(&Vec::new()), PresentMode::Fifo);
}

#[test]
fn swapchain_matches_surface_properties() {
    let mut surface = Surface::new();
    surface.init_properties(&formats(), caps_800_600(), 800, 600);
    let chain = Swapchain::new(&surface, &vec![PresentMode::Fifo, PresentMode::Mailbox]);
    assert_eq!(chain.extent, Extent2D { width: 800, height: 600 });
    assert_eq!(chain.image_count, 3);
    assert_eq!(chain.format, SurfaceFormat { format: 44, color_space: 0 });
    assert_eq!(chain.present_mode, PresentMode::Mailbox);
    assert_eq!(chain.pre_transform, TRANSFORM_IDENTITY);
}

#[test]
fn swapchain_recreate_rejects_unsupported_dimensions() {
    let mut surface = Surface::new();
    surface.init_properties(&formats(), caps_800_600(), 800, 600);
    let modes = vec![PresentMode::Fifo];
    let mut chain = Swapchain::new(&surface, &modes);

    // The surface now reports an extent outside its own supported range.
    let mut bad_caps = caps_800_600();
    bad_caps.current_extent = Extent2D { width: 8192, height: 8192 };
    surface.init_properties(&formats(), bad_caps, 800, 600);
    let before = chain;
    assert!(chain.recreate(&surface, &modes).is_none());
    assert_eq!(chain, before);
}
