use hyper_rhi::error::SuitabilityError;
use hyper_rhi::frame_ring::RebuildStep;
use hyper_rhi::surface::{
    choose_extent, choose_image_count, choose_present_mode, choose_sharing_mode,
    choose_surface_format, clamp, plan_swapchain, ColorSpace, Extent, PixelFormat, PresentMode,
    SharingMode, Surface, SurfaceCapabilities, SurfaceError, SurfaceFormat, UNDEFINED_EXTENT,
};

fn capabilities(current: (u32, u32), min: (u32, u32), max: (u32, u32)) -> SurfaceCapabilities {
    SurfaceCapabilities {
        min_image_count: 2,
        max_image_count: 0,
        current_extent: Extent { width: current.0, height: current.1 },
        min_image_extent: Extent { width: min.0, height: min.1 },
        max_image_extent: Extent { width: max.0, height: max.1 },
    }
}

fn format(format: PixelFormat) -> SurfaceFormat {
    SurfaceFormat { format, color_space: ColorSpace::SrgbNonlinear }
}

#[test]
fn rebuild_takes_the_surface_extent_as_reported() {
    let caps = capabilities((1024, 768), (1, 1), (4096, 4096));
    assert_eq!(choose_extent(800, 600, &caps), Extent { width: 1024, height: 768 });
    assert_eq!(choose_extent(1024, 768, &caps), Extent { width: 1024, height: 768 });
}

#[test]
fn undefined_extent_clamps_the_requested_size_per_axis() {
    let caps = capabilities((0xFFFF_FFFF, 0xFFFF_FFFF), (1, 1), (512, 512));
    assert_eq!(choose_extent(640, 480, &caps), Extent { width: 512, height: 480 });
    assert_eq!(UNDEFINED_EXTENT, u32::MAX);
}

#[test]
fn extent_with_one_defined_axis_is_the_surface_extent() {
    let caps = capabilities((300, 0xFFFF_FFFF), (1, 1), (512, 512));
    assert_eq!(choose_extent(640, 480, &caps), Extent { width: 300, height: 0xFFFF_FFFF });
}

#[test]
fn clamp_raises_and_lowers() {
    assert_eq!(clamp(5, 10, 20), 10);
    assert_eq!(clamp(25, 10, 20), 20);
    assert_eq!(clamp(15, 10, 20), 15);
    assert_eq!(clamp(10, 10, 20), 10);
    assert_eq!(clamp(20, 10, 20), 20);
    let caps = capabilities((u32::MAX, u32::MAX), (100, 200), (1000, 2000));
    assert_eq!(choose_extent(0, 0, &caps), Extent { width: 100, height: 200 });
    assert_eq!(choose_extent(5000, 5000, &caps), Extent { width: 1000, height: 2000 });
}

#[test]
fn preferred_format_wins_wherever_it_stands() {
    let formats = vec![
        format(PixelFormat::Rgba8Unorm),
        format(PixelFormat::Bgra8Unorm),
        format(PixelFormat::Bgra8Srgb),
    ];
    assert_eq!(choose_surface_format(&formats), Ok(format(PixelFormat::Bgra8Srgb)));
}

#[test]
fn first_format_is_the_fallback() {
    let formats = vec![
        format(PixelFormat::Rgba8Unorm),
        SurfaceFormat { format: PixelFormat::Bgra8Srgb, color_space: ColorSpace::Other(7) },
    ];
    assert_eq!(choose_surface_format(&formats), Ok(format(PixelFormat::Rgba8Unorm)));
}

#[test]
fn surface_without_formats_is_not_suitable() {
    assert_eq!(choose_surface_format(&Vec::new()), Err(SuitabilityError::NoSurfaceFormat));
}

#[test]
fn mailbox_is_preferred_and_fifo_is_the_fallback() {
    assert_eq!(
        choose_present_mode(&vec![PresentMode::Fifo, PresentMode::Mailbox]),
        PresentMode::Mailbox
    );
    assert_eq!(
        choose_present_mode(&vec![PresentMode::Immediate, PresentMode::FifoRelaxed]),
        PresentMode::Fifo
    );
    assert_eq!(choose_present_mode(&Vec::new()), PresentMode::Fifo);
}

#[test]
fn image_count_is_one_more_than_the_fewest_within_the_most() {
    let mut caps = capabilities((1, 1), (1, 1), (1, 1));
    caps.min_image_count = 2;
    caps.max_image_count = 0;
    assert_eq!(choose_image_count(&caps), 3);
    caps.max_image_count = 8;
    assert_eq!(choose_image_count(&caps), 3);
    caps.max_image_count = 3;
    assert_eq!(choose_image_count(&caps), 3);
    caps.max_image_count = 2;
    assert_eq!(choose_image_count(&caps), 2);
    caps.min_image_count = u32::MAX;
    caps.max_image_count = 0;
    assert_eq!(choose_image_count(&caps), u32::MAX);
    caps.max_image_count = u32::MAX;
    assert_eq!(choose_image_count(&caps), u32::MAX);
}

#[test]
fn sharing_is_concurrent_only_between_two_families() {
    assert_eq!(choose_sharing_mode(0, 0), SharingMode::Exclusive);
    assert_eq!(
        choose_sharing_mode(0, 2),
        SharingMode::Concurrent { graphics_family: 0, present_family: 2 }
    );
}

#[test]
fn plan_puts_the_choices_together() {
    let caps = capabilities((u32::MAX, u32::MAX), (1, 1), (512, 512));
    let formats = vec![format(PixelFormat::Bgra8Unorm)];
    let plan = plan_swapchain(640, 480, &caps, &formats, &vec![PresentMode::Mailbox], 1, 1).unwrap();
    assert_eq!(plan.extent, Extent { width: 512, height: 480 });
    assert_eq!(plan.format, format(PixelFormat::Bgra8Unorm));
    assert_eq!(plan.present_mode, PresentMode::Mailbox);
    assert_eq!(plan.image_count, 3);
    assert_eq!(plan.sharing, SharingMode::Exclusive);
    assert_eq!(
        plan_swapchain(640, 480, &caps, &Vec::new(), &Vec::new(), 1, 1),
        Err(SuitabilityError::NoSurfaceFormat)
    );
}

#[test]
fn rebuild_is_planned_for_the_size_asked_for_last() {
    let mut surface = Surface::new(800, 600, Extent { width: 800, height: 600 }, 3).unwrap();
    let open = capabilities((u32::MAX, u32::MAX), (1, 1), (4096, 4096));
    let formats = vec![format(PixelFormat::Bgra8Srgb)];
    let modes = vec![PresentMode::Fifo];
    let plan = surface.plan_rebuild(&open, &formats, &modes, 0, 0).unwrap();
    assert_eq!(plan.extent, Extent { width: 800, height: 600 });
    surface.resize(1024, 768);
    let plan = surface.plan_rebuild(&open, &formats, &modes, 0, 1).unwrap();
    assert_eq!(plan, plan_swapchain(1024, 768, &open, &formats, &modes, 0, 1).unwrap());
    assert_eq!(plan.extent, Extent { width: 1024, height: 768 });
    let narrow = capabilities((u32::MAX, u32::MAX), (1, 1), (512, 512));
    surface.resize(640, 480);
    let plan = surface.plan_rebuild(&narrow, &formats, &modes, 0, 0).unwrap();
    assert_eq!(plan.extent, Extent { width: 512, height: 480 });
    let fixed = capabilities((1024, 768), (1, 1), (4096, 4096));
    assert_eq!(
        surface.plan_rebuild(&fixed, &formats, &modes, 0, 0).unwrap().extent,
        Extent { width: 1024, height: 768 }
    );
    assert_eq!(
        surface.plan_rebuild(&open, &Vec::new(), &modes, 0, 0),
        Err(SuitabilityError::NoSurfaceFormat)
    );
}

#[test]
fn surface_resize_is_taken_up_by_the_rebuild() {
    let mut surface = Surface::new(800, 600, Extent { width: 800, height: 600 }, 3).unwrap();
    assert!(!surface.resized());
    surface.set_current_texture_index(2).unwrap();
    surface.resize(1024, 768);
    assert!(surface.resized());
    assert_eq!((surface.width(), surface.height()), (1024, 768));
    assert_eq!(surface.extent(), Extent { width: 800, height: 600 });
    assert_eq!(surface.texture_count(), 3);
    assert_eq!(surface.current_texture_index(), 2);
    assert_eq!(
        surface.rebuild(RebuildStep::Wait { frame: 4 }, Extent { width: 1024, height: 768 }, 2),
        Err(SurfaceError::InUse { frame: 4 })
    );
    assert!(surface.resized());
    assert_eq!(surface.extent(), Extent { width: 800, height: 600 });
    assert_eq!(
        surface.rebuild(RebuildStep::Proceed, Extent { width: 1024, height: 768 }, 2),
        Ok(())
    );
    assert!(!surface.resized());
    assert_eq!(surface.extent(), Extent { width: 1024, height: 768 });
    assert_eq!(surface.texture_count(), 2);
    assert_eq!(surface.current_texture_index(), 0);
}

#[test]
fn surface_refuses_what_has_no_texture() {
    assert!(matches!(
        Surface::new(1, 1, Extent { width: 1, height: 1 }, 0),
        Err(SurfaceError::NoTextures)
    ));
    let mut surface = Surface::new(1, 1, Extent { width: 1, height: 1 }, 2).unwrap();
    assert_eq!(
        surface.set_current_texture_index(2),
        Err(SurfaceError::NoSuchTexture { index: 2, count: 2 })
    );
    assert_eq!(surface.current_texture_index(), 0);
    assert_eq!(
        surface.rebuild(RebuildStep::Proceed, Extent { width: 1, height: 1 }, 0),
        Err(SurfaceError::NoTextures)
    );
    assert_eq!(surface.texture_count(), 2);
}
