use renderer_core::depth_buffer::DepthBuffer;
use renderer_core::format::FORMAT_B8G8R8A8_SRGB;
use renderer_core::format::FORMAT_D32_SFLOAT;
use renderer_core::format::FORMAT_R8G8B8A8_SRGB;
use renderer_core::swapchain::PresentMode;
use renderer_core::swapchain::SharingMode;
use renderer_core::swapchain::Swapchain;
use renderer_core::Extent2D;
use renderer_core::RenderError;

const EXTENT: Extent2D = Extent2D { width: 1280, height: 720 };

fn surface_formats() -> Vec<u32> {
    vec![FORMAT_B8G8R8A8_SRGB, FORMAT_R8G8B8A8_SRGB]
}

#[test]
fn new_picks_preferred_format_and_ring_size() {
    let sc = Swapchain::new(&surface_formats(), 2, 1, EXTENT, 11, None).unwrap();
    assert_eq!(sc.format, FORMAT_B8G8R8A8_SRGB);
    assert_eq!(sc.min_image_count, 3);
    assert_eq!(sc.image_count, 3);
    assert_eq!(sc.extent, EXTENT);
    assert_eq!(sc.image_available, 11);
}

#[test]
fn new_fixes_sharing_presentation_and_transform() {
    let sc = Swapchain::new(&surface_formats(), 2, 4, EXTENT, 11, None).unwrap();
    assert_eq!(sc.sharing_mode, SharingMode::Exclusive);
    assert_eq!(sc.present_mode, PresentMode::Fifo);
    assert_eq!(sc.pre_transform, 4);
}

#[test]
fn adopting_a_larger_ring_widens_the_index_range() {
    let mut sc = Swapchain::new(&surface_formats(), 2, 1, EXTENT, 11, None).unwrap();
    assert_eq!(sc.get_drawable(3).unwrap_err(), RenderError::ImageIndexOutOfRange);
    sc.adopt_image_count(4).unwrap();
    assert_eq!(sc.min_image_count, 3);
    assert_eq!(sc.image_count, 4);
    let d = sc.get_drawable(3).unwrap();
    assert_eq!(d.index, 3);
    assert_eq!(sc.get_drawable(4).unwrap_err(), RenderError::ImageIndexOutOfRange);
}

#[test]
fn a_ring_below_the_request_is_rejected() {
    let mut sc = Swapchain::new(&surface_formats(), 2, 1, EXTENT, 11, None).unwrap();
    let err = sc.adopt_image_count(2).unwrap_err();
    assert_eq!(err, RenderError::ImageRingTooSmall);
    assert_eq!(sc.image_count, 3);
}

#[test]
fn new_fails_without_preferred_format() {
    let err = Swapchain::new(&vec![7, 9], 2, 1, EXTENT, 11, None).unwrap_err();
    assert_eq!(err, RenderError::FormatUnavailable);
}

#[test]
fn recreation_preserves_format() {
    let supported = surface_formats();
    let first = Swapchain::new(&supported, 2, 1, EXTENT, 11, None).unwrap();
    let second = Swapchain::new(&supported, 2, 1, EXTENT, 11, Some(&first)).unwrap();
    assert_eq!(second.format, first.format);
}

#[test]
fn get_drawable_index_in_range() {
    let sc = Swapchain::new(&surface_formats(), 2, 1, EXTENT, 11, None).unwrap();
    for index in 0..sc.image_count {
        let d = sc.get_drawable(index).unwrap();
        assert!(d.index < sc.image_count);
        assert_eq!(d.index, index);
        assert_eq!(d.extent, EXTENT);
    }
}

#[test]
fn get_drawable_same_semaphore_every_call() {
    let sc = Swapchain::new(&surface_formats(), 2, 1, EXTENT, 11, None).unwrap();
    let first = sc.get_drawable(0).unwrap();
    let again = sc.get_drawable(2).unwrap();
    assert_eq!(first.ready, sc.image_available);
    assert_eq!(again.ready, sc.image_available);
}

#[test]
fn get_drawable_rejects_out_of_range_index() {
    let sc = Swapchain::new(&surface_formats(), 2, 1, EXTENT, 11, None).unwrap();
    let err = sc.get_drawable(3).unwrap_err();
    assert_eq!(err, RenderError::ImageIndexOutOfRange);
}

#[test]
fn depth_buffer_matches_swapchain_extent() {
    let sc = Swapchain::new(&surface_formats(), 2, 1, EXTENT, 11, None).unwrap();
    let depth = DepthBuffer::new(&sc);
    assert_eq!(depth.extent, sc.extent);
    assert_eq!(depth.format, FORMAT_D32_SFLOAT);
}
