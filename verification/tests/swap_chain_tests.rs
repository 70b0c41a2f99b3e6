use rust_vulkan::device::Queue_family_indices;
use rust_vulkan::swap_chain::choose_sharing_mode;
use rust_vulkan::swap_chain::Extent_2d;
use rust_vulkan::swap_chain::Sharing_mode;
use rust_vulkan::swap_chain::Surface_capabilities;
use rust_vulkan::swap_chain::Surface_format;
use rust_vulkan::swap_chain::Swap_chain;
use rust_vulkan::swap_chain::Swap_chain_supports;
use rust_vulkan::swap_chain::ATTACHMENT_LOAD_OP_CLEAR;
use rust_vulkan::swap_chain::ATTACHMENT_STORE_OP_STORE;
use rust_vulkan::swap_chain::COLOR_SPACE_SRGB_NONLINEAR;
use rust_vulkan::swap_chain::EXTENT_UNDEFINED;
use rust_vulkan::swap_chain::FORMAT_R8G8B8A8_SRGB;
use rust_vulkan::swap_chain::IMAGE_LAYOUT_PRESENT_SRC;
use rust_vulkan::swap_chain::IMAGE_LAYOUT_UNDEFINED;
use rust_vulkan::swap_chain::PRESENT_MODE_FIFO;
use rust_vulkan::swap_chain::PRESENT_MODE_MAILBOX;
use rust_vulkan::swap_chain::SAMPLE_COUNT_1;

fn capabilities(
    min_image_count: u32,
    max_image_count: u32,
    current: (u32, u32),
) -> Surface_capabilities {
    Surface_capabilities {
        min_image_count,
        max_image_count,
        current_extent: Extent_2d { width: current.0, height: current.1 },
        min_image_extent: Extent_2d { width: 400, height: 300 },
        max_image_extent: Extent_2d { width: 1920, height: 1080 },
        current_transform: 1,
    }
}

fn supports_with(
    capabilities: Surface_capabilities,
    formats: Vec<Surface_format>,
    present_modes: Vec<u32>,
) -> Swap_chain_supports {
    Swap_chain_supports { capabilities, formats, present_modes }
}

fn plain_format(format: u32) -> Surface_format {
    Surface_format { format, color_space: 77 }
}

fn preferred_format() -> Surface_format {
    Surface_format { format: FORMAT_R8G8B8A8_SRGB, color_space: COLOR_SPACE_SRGB_NONLINEAR }
}

fn same_family_indices() -> Queue_family_indices {
    Queue_family_indices { graphics_family: Some(0), present_family: Some(0) }
}

fn split_family_indices() -> Queue_family_indices {
    Queue_family_indices { graphics_family: Some(0), present_family: Some(2) }
}

#[test]
fn undefined_extent_takes_clamped_window_size() {
    // The surface reports its extent undefined with bounds
    // (400,300)-(1920,1080); a window of 800x600 is taken as is.
    let supports = supports_with(
        capabilities(1, 0, (EXTENT_UNDEFINED, EXTENT_UNDEFINED)),
        vec![preferred_format()],
        vec![PRESENT_MODE_FIFO],
    );
    let extent = supports.choose_extent(800, 600);
    assert_eq!(extent, Extent_2d { width: 800, height: 600 });
    // Out-of-range window sizes clamp to the bounds.
    assert_eq!(supports.choose_extent(100, 9000), Extent_2d { width: 400, height: 1080 });
}

#[test]
fn defined_extent_wins_over_window_size() {
    let supports = supports_with(
        capabilities(1, 0, (1024, 768)),
        vec![preferred_format()],
        vec![PRESENT_MODE_FIFO],
    );
    assert_eq!(supports.choose_extent(800, 600), Extent_2d { width: 1024, height: 768 });
}

#[test]
fn image_count_clamps_to_maximum() {
    // Requested min_image_count(1) + 2 = 3, capped at max_image_count 2.
    let capped = supports_with(capabilities(1, 2, (1024, 768)), vec![preferred_format()], vec![]);
    assert_eq!(capped.choose_image_count(), 2);
    // A zero maximum means unlimited: the request stands.
    let unlimited = supports_with(capabilities(1, 0, (1024, 768)), vec![preferred_format()], vec![]);
    assert_eq!(unlimited.choose_image_count(), 3);
    let roomy = supports_with(capabilities(2, 8, (1024, 768)), vec![preferred_format()], vec![]);
    assert_eq!(roomy.choose_image_count(), 4);
}

#[test]
fn preferred_format_chosen_regardless_of_position() {
    let supports = supports_with(
        capabilities(1, 0, (1024, 768)),
        vec![plain_format(50), plain_format(44), preferred_format()],
        vec![PRESENT_MODE_FIFO],
    );
    assert_eq!(supports.choose_format(), preferred_format());
}

#[test]
fn first_format_chosen_when_none_preferred() {
    let supports = supports_with(
        capabilities(1, 0, (1024, 768)),
        vec![plain_format(50), plain_format(44)],
        vec![PRESENT_MODE_FIFO],
    );
    assert_eq!(supports.choose_format(), plain_format(50));
}

#[test]
fn mailbox_selected_over_fifo() {
    let supports = supports_with(
        capabilities(1, 0, (1024, 768)),
        vec![preferred_format()],
        vec![PRESENT_MODE_FIFO, PRESENT_MODE_MAILBOX],
    );
    assert_eq!(supports.choose_present_mode(), PRESENT_MODE_MAILBOX);
}

#[test]
fn fifo_is_the_fallback_present_mode() {
    let supports = supports_with(
        capabilities(1, 0, (1024, 768)),
        vec![preferred_format()],
        vec![PRESENT_MODE_FIFO, 0],
    );
    assert_eq!(supports.choose_present_mode(), PRESENT_MODE_FIFO);
}

#[test]
fn sharing_mode_concurrent_iff_families_differ() {
    assert_eq!(choose_sharing_mode(&same_family_indices()), Sharing_mode::Exclusive);
    assert_eq!(choose_sharing_mode(&split_family_indices()), Sharing_mode::Concurrent);
}

#[test]
fn physical_device_check_requires_formats_and_modes() {
    let both = supports_with(
        capabilities(1, 0, (1024, 768)),
        vec![preferred_format()],
        vec![PRESENT_MODE_FIFO],
    );
    assert!(both.physical_device_check());
    let no_formats = supports_with(capabilities(1, 0, (1024, 768)), vec![], vec![PRESENT_MODE_FIFO]);
    assert!(!no_formats.physical_device_check());
    let no_modes = supports_with(capabilities(1, 0, (1024, 768)), vec![preferred_format()], vec![]);
    assert!(!no_modes.physical_device_check());
}

#[test]
fn build_settles_choices_and_render_pass() {
    let supports = supports_with(
        capabilities(1, 0, (1024, 768)),
        vec![plain_format(50), preferred_format()],
        vec![PRESENT_MODE_MAILBOX],
    );
    let sc = Swap_chain::new(&supports, &split_family_indices(), 800, 600, 3);
    assert_eq!(sc.surface_format, preferred_format());
    assert_eq!(sc.present_mode, PRESENT_MODE_MAILBOX);
    assert_eq!(sc.extent, Extent_2d { width: 1024, height: 768 });
    assert_eq!(sc.sharing_mode, Sharing_mode::Concurrent);
    assert_eq!(sc.queue_family_indices, vec![0, 2]);
    assert_eq!(sc.image_count, 3);
    assert_eq!(sc.render_pass.format, FORMAT_R8G8B8A8_SRGB);
    assert_eq!(sc.render_pass.samples, SAMPLE_COUNT_1);
    assert_eq!(sc.render_pass.load_op, ATTACHMENT_LOAD_OP_CLEAR);
    assert_eq!(sc.render_pass.store_op, ATTACHMENT_STORE_OP_STORE);
    assert_eq!(sc.render_pass.initial_layout, IMAGE_LAYOUT_UNDEFINED);
    assert_eq!(sc.render_pass.final_layout, IMAGE_LAYOUT_PRESENT_SRC);
    assert_eq!(sc.render_pass.attachment_count, 1);
    assert_eq!(sc.render_pass.subpass_count, 1);
}

#[test]
fn exclusive_build_passes_no_family_list() {
    let supports = supports_with(
        capabilities(1, 0, (1024, 768)),
        vec![preferred_format()],
        vec![PRESENT_MODE_FIFO],
    );
    let sc = Swap_chain::new(&supports, &same_family_indices(), 800, 600, 3);
    assert_eq!(sc.sharing_mode, Sharing_mode::Exclusive);
    assert_eq!(sc.queue_family_indices, Vec::<u32>::new());
}

#[test]
fn recreate_twice_settles_on_same_choices() {
    // Two rebuilds against an unchanged surface agree in every choice.
    let supports = supports_with(
        capabilities(1, 0, (EXTENT_UNDEFINED, EXTENT_UNDEFINED)),
        vec![plain_format(50), preferred_format()],
        vec![PRESENT_MODE_MAILBOX],
    );
    let indices = same_family_indices();
    let mut sc = Swap_chain::new(&supports, &indices, 800, 600, 3);
    sc.recreate(&supports, &indices, 800, 600, 3);
    let once = sc.clone();
    sc.recreate(&supports, &indices, 800, 600, 3);
    assert_eq!(sc, once);
    assert_eq!(sc.surface_format, preferred_format());
    assert_eq!(sc.present_mode, PRESENT_MODE_MAILBOX);
}

#[test]
fn update_images_derives_one_view_and_framebuffer_per_image() {
    let supports = supports_with(
        capabilities(1, 0, (1024, 768)),
        vec![preferred_format()],
        vec![PRESENT_MODE_FIFO],
    );
    let mut sc = Swap_chain::new(&supports, &same_family_indices(), 800, 600, 0);
    let (views, framebuffers) = sc.update_images(3);
    assert_eq!(sc.image_count, 3);
    assert_eq!(views.len(), 3);
    assert_eq!(framebuffers.len(), 3);
    for (i, view) in views.iter().enumerate() {
        assert_eq!(view.image_index, i);
        assert_eq!(view.format, FORMAT_R8G8B8A8_SRGB);
    }
    for (i, fb) in framebuffers.iter().enumerate() {
        assert_eq!(fb.image_index, i);
        assert_eq!(fb.width, 1024);
        assert_eq!(fb.height, 768);
    }
}
