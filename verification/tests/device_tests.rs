use rust_vulkan::device::bytes_equal;
use rust_vulkan::device::contains_bytes;
use rust_vulkan::device::device_type_rank;
use rust_vulkan::device::select_physical_device;
use rust_vulkan::device::supports_all_extensions;
use rust_vulkan::device::Physical_device_info;
use rust_vulkan::device::Queue_family_indices;
use rust_vulkan::device::Queue_family_support;
use rust_vulkan::device::DEVICE_TYPE_CPU;
use rust_vulkan::device::DEVICE_TYPE_DISCRETE_GPU;
use rust_vulkan::device::DEVICE_TYPE_INTEGRATED_GPU;
use rust_vulkan::device::DEVICE_TYPE_OTHER;
use rust_vulkan::device::DEVICE_TYPE_VIRTUAL_GPU;
use rust_vulkan::utils::Vulkan_error;

fn swapchain_extension() -> Vec<u8> {
    b"VK_KHR_swapchain".to_vec()
}

fn eligible_device(device_type: u32) -> Physical_device_info {
    Physical_device_info {
        device_type,
        extensions: vec![b"VK_KHR_surface".to_vec(), swapchain_extension()],
        has_surface_formats: true,
        has_present_modes: true,
        queue_families: vec![Queue_family_support { graphics: true, present: true }],
    }
}

#[test]
fn bytes_equal_compares_contents() {
    assert!(bytes_equal(&b"abc".to_vec(), &b"abc".to_vec()));
    assert!(!bytes_equal(&b"abc".to_vec(), &b"abd".to_vec()));
    assert!(!bytes_equal(&b"abc".to_vec(), &b"ab".to_vec()));
    assert!(bytes_equal(&Vec::new(), &Vec::new()));
}

#[test]
fn contains_bytes_finds_name() {
    let list = vec![b"one".to_vec(), b"two".to_vec()];
    assert!(contains_bytes(&list, &b"two".to_vec()));
    assert!(!contains_bytes(&list, &b"three".to_vec()));
}

#[test]
fn supports_all_extensions_is_subset_check() {
    let available = vec![b"VK_KHR_surface".to_vec(), swapchain_extension()];
    assert!(supports_all_extensions(&available, &vec![swapchain_extension()]));
    assert!(supports_all_extensions(&available, &Vec::new()));
    assert!(!supports_all_extensions(&available, &vec![b"VK_EXT_other".to_vec()]));
}

#[test]
fn queue_family_scan_finds_both_roles() {
    let families = vec![
        Queue_family_support { graphics: false, present: true },
        Queue_family_support { graphics: true, present: false },
    ];
    let indices = Queue_family_indices::new(&families).unwrap();
    assert_eq!(indices.graphics_family, Some(1));
    assert_eq!(indices.present_family, Some(0));
    assert!(indices.is_complete());
}

#[test]
fn queue_family_scan_stops_once_complete() {
    // Both roles are settled at family 1; family 2 is never reached.
    let families = vec![
        Queue_family_support { graphics: true, present: false },
        Queue_family_support { graphics: false, present: true },
        Queue_family_support { graphics: true, present: true },
    ];
    let indices = Queue_family_indices::new(&families).unwrap();
    assert_eq!(indices.graphics_family, Some(0));
    assert_eq!(indices.present_family, Some(1));
}

#[test]
fn queue_family_scan_rejects_incomplete() {
    let graphics_only = vec![Queue_family_support { graphics: true, present: false }];
    assert!(matches!(
        Queue_family_indices::new(&graphics_only),
        Err(Vulkan_error::No_suitable_device)
    ));
    let present_only = vec![Queue_family_support { graphics: false, present: true }];
    assert!(matches!(
        Queue_family_indices::new(&present_only),
        Err(Vulkan_error::No_suitable_device)
    ));
    assert!(matches!(
        Queue_family_indices::new(&Vec::new()),
        Err(Vulkan_error::No_suitable_device)
    ));
}

#[test]
fn distinct_indices_deduplicates() {
    let same = Queue_family_indices { graphics_family: Some(3), present_family: Some(3) };
    assert_eq!(same.distinct_indices(), vec![3]);
    let different = Queue_family_indices { graphics_family: Some(1), present_family: Some(2) };
    assert_eq!(different.distinct_indices(), vec![1, 2]);
}

#[test]
fn category_precedence_ranks() {
    assert_eq!(device_type_rank(DEVICE_TYPE_DISCRETE_GPU), 0);
    assert_eq!(device_type_rank(DEVICE_TYPE_INTEGRATED_GPU), 1);
    assert_eq!(device_type_rank(DEVICE_TYPE_VIRTUAL_GPU), 2);
    assert_eq!(device_type_rank(DEVICE_TYPE_CPU), 3);
    assert_eq!(device_type_rank(DEVICE_TYPE_OTHER), 4);
    assert_eq!(device_type_rank(77), 4);
}

#[test]
fn discrete_beats_integrated() {
    // Integrated first in enumeration order; the discrete device wins.
    let devices = vec![
        eligible_device(DEVICE_TYPE_INTEGRATED_GPU),
        eligible_device(DEVICE_TYPE_DISCRETE_GPU),
    ];
    let required = vec![swapchain_extension()];
    let (chosen, indices) = select_physical_device(&devices, &required).unwrap();
    assert_eq!(chosen, 1);
    assert_eq!(indices.graphics_family, Some(0));
    assert_eq!(indices.present_family, Some(0));
}

#[test]
fn equal_categories_first_found_wins() {
    let devices = vec![
        eligible_device(DEVICE_TYPE_DISCRETE_GPU),
        eligible_device(DEVICE_TYPE_DISCRETE_GPU),
    ];
    let required = vec![swapchain_extension()];
    let (chosen, _) = select_physical_device(&devices, &required).unwrap();
    assert_eq!(chosen, 0);
}

#[test]
fn device_without_usable_families_is_skipped() {
    let mut no_present = eligible_device(DEVICE_TYPE_DISCRETE_GPU);
    no_present.queue_families = vec![Queue_family_support { graphics: true, present: false }];
    let devices = vec![no_present, eligible_device(DEVICE_TYPE_CPU)];
    let required = vec![swapchain_extension()];
    let (chosen, _) = select_physical_device(&devices, &required).unwrap();
    assert_eq!(chosen, 1);
}

#[test]
fn no_eligible_device_is_no_suitable_device() {
    let mut no_extension = eligible_device(DEVICE_TYPE_DISCRETE_GPU);
    no_extension.extensions = vec![b"VK_KHR_surface".to_vec()];
    let mut no_formats = eligible_device(DEVICE_TYPE_DISCRETE_GPU);
    no_formats.has_surface_formats = false;
    let devices = vec![no_extension, no_formats];
    let required = vec![swapchain_extension()];
    assert!(matches!(
        select_physical_device(&devices, &required),
        Err(Vulkan_error::No_suitable_device)
    ));
    assert!(matches!(
        select_physical_device(&Vec::new(), &required),
        Err(Vulkan_error::No_suitable_device)
    ));
}
