use cubulous::surface::{
    choose_image_count, choose_present_mode, choose_surface_format, choose_swap_extent,
    image_view_descs, plan_swapchain, Extent, ImageViewDesc, SurfaceCapabilities, SurfaceFormat,
    COLOR_SPACE_SRGB_NONLINEAR, FORMAT_B8G8R8A8_SRGB, PRESENT_MODE_FIFO, PRESENT_MODE_MAILBOX,
    UNCONSTRAINED_EXTENT,
};

fn caps(min_count: u32, max_count: u32) -> SurfaceCapabilities {
    SurfaceCapabilities {
        min_image_count: min_count,
        max_image_count: max_count,
        current_extent: Extent { width: 800, height: 600 },
        min_image_extent: Extent { width: 100, height: 50 },
        max_image_extent: Extent { width: 4096, height: 2048 },
    }
}

#[test]
fn image_count_unbounded_maximum() {
    assert_eq!(choose_image_count(&caps(2, 0)), 3);
}

#[test]
fn image_count_clamped_to_maximum() {
    assert_eq!(choose_image_count(&caps(2, 2)), 2);
}

#[test]
fn image_count_below_maximum() {
    assert_eq!(choose_image_count(&caps(2, 8)), 3);
}

#[test]
fn extent_clamped_above_and_below() {
    let c = caps(2, 0);
    let r = choose_swap_extent(Extent { width: 5000, height: 10 }, &c);
    assert_eq!(r, Extent { width: 4096, height: 50 });
}

#[test]
fn extent_inside_bounds_kept() {
    let c = caps(2, 0);
    let r = choose_swap_extent(Extent { width: 1280, height: 720 }, &c);
    assert_eq!(r, Extent { width: 1280, height: 720 });
}

#[test]
fn extent_unconstrained_sentinel_verbatim() {
    let mut c = caps(2, 0);
    c.current_extent = Extent { width: UNCONSTRAINED_EXTENT, height: UNCONSTRAINED_EXTENT };
    let r = choose_swap_extent(Extent { width: 1280, height: 720 }, &c);
    assert_eq!(r, c.current_extent);
}

#[test]
fn extent_within_bounds_for_many_windows() {
    let c = caps(2, 0);
    for w in [0u32, 99, 100, 101, 4095, 4096, 4097, u32::MAX] {
        let r = choose_swap_extent(Extent { width: w, height: w }, &c);
        assert!(c.min_image_extent.width <= r.width && r.width <= c.max_image_extent.width);
        assert!(c.min_image_extent.height <= r.height && r.height <= c.max_image_extent.height);
    }
}

#[test]
fn preferred_format_chosen_when_supported() {
    let preferred = SurfaceFormat { format: FORMAT_B8G8R8A8_SRGB, color_space: COLOR_SPACE_SRGB_NONLINEAR };
    let formats = vec![
        SurfaceFormat { format: 44, color_space: COLOR_SPACE_SRGB_NONLINEAR },
        SurfaceFormat { format: FORMAT_B8G8R8A8_SRGB, color_space: 1000104001 },
        preferred,
    ];
    assert_eq!(choose_surface_format(&formats), preferred);
}

#[test]
fn first_format_chosen_otherwise() {
    let formats = vec![
        SurfaceFormat { format: 44, color_space: COLOR_SPACE_SRGB_NONLINEAR },
        SurfaceFormat { format: FORMAT_B8G8R8A8_SRGB, color_space: 1000104001 },
    ];
    assert_eq!(choose_surface_format(&formats), formats[0]);
}

#[test]
fn mailbox_chosen_when_supported() {
    assert_eq!(choose_present_mode(&vec![PRESENT_MODE_FIFO, 0, PRESENT_MODE_MAILBOX]), PRESENT_MODE_MAILBOX);
}

#[test]
fn fifo_chosen_otherwise() {
    assert_eq!(choose_present_mode(&vec![0, 3]), PRESENT_MODE_FIFO);
    assert_eq!(choose_present_mode(&vec![]), PRESENT_MODE_FIFO);
}

#[test]
fn plan_combines_choices() {
    let formats = vec![SurfaceFormat { format: 44, color_space: 0 }];
    let plan = plan_swapchain(&caps(3, 3), &formats, &vec![PRESENT_MODE_MAILBOX], Extent { width: 20, height: 3000 });
    assert_eq!(plan.format, formats[0]);
    assert_eq!(plan.present_mode, PRESENT_MODE_MAILBOX);
    assert_eq!(plan.extent, Extent { width: 100, height: 2048 });
    assert_eq!(plan.image_count, 3);
}

#[test]
fn one_view_per_image() {
    let descs = image_view_descs(&vec![11, 12, 13], FORMAT_B8G8R8A8_SRGB);
    assert_eq!(
        descs,
        vec![
            ImageViewDesc { image: 11, format: FORMAT_B8G8R8A8_SRGB },
            ImageViewDesc { image: 12, format: FORMAT_B8G8R8A8_SRGB },
            ImageViewDesc { image: 13, format: FORMAT_B8G8R8A8_SRGB },
        ]
    );
}
