use hyper_rhi::device::{
    check_physical_device_extensions, choose_device, describe_queue_family, device_extensions,
    device_type_name, find_graphics_queue, has_extension_named, is_physical_device_suitable,
    pick_physical_device, print_device_information, same_name, unique_queue_families,
    DeviceChoice, PhysicalDevice, QueueFamily, QueueFamilyRow,
};
use hyper_rhi::error::SuitabilityError;
use hyper_rhi::vulkan::ApiVersion;

fn family(flags: u32, presents: bool) -> QueueFamily {
    QueueFamily { flags, queue_count: 1, presents }
}

fn device(extensions: &[&str], families: Vec<QueueFamily>, formats: usize, modes: usize) -> PhysicalDevice {
    PhysicalDevice {
        device_type: 2,
        api_version: (1 << 22) | (3 << 12) | 250,
        extensions: extensions.iter().map(|name| name.as_bytes().to_vec()).collect(),
        queue_families: families,
        format_count: formats,
        present_mode_count: modes,
    }
}

#[test]
fn required_extension_is_the_swapchain() {
    assert_eq!(device_extensions(), vec![b"VK_KHR_swapchain".to_vec()]);
}

#[test]
fn names_compare_byte_by_byte() {
    assert!(same_name(&b"abc".to_vec(), &b"abc".to_vec()));
    assert!(!same_name(&b"abc".to_vec(), &b"abd".to_vec()));
    assert!(!same_name(&b"abc".to_vec(), &b"ab".to_vec()));
    assert!(same_name(&Vec::new(), &Vec::new()));
}

#[test]
fn extensions_must_all_be_there() {
    let available = vec![b"VK_KHR_swapchain".to_vec(), b"VK_KHR_maintenance1".to_vec()];
    assert!(has_extension_named(&available, &b"VK_KHR_swapchain".to_vec()));
    assert!(!has_extension_named(&available, &b"VK_KHR_swap".to_vec()));
    assert!(check_physical_device_extensions(&available, &device_extensions()));
    assert!(check_physical_device_extensions(&available, &Vec::new()));
    assert!(!check_physical_device_extensions(
        &available,
        &vec![b"VK_KHR_swapchain".to_vec(), b"VK_EXT_missing".to_vec()]
    ));
    assert!(!check_physical_device_extensions(&Vec::new(), &device_extensions()));
}

#[test]
fn graphics_queue_is_the_last_family_that_renders_and_presents() {
    let families = vec![
        family(0b0001, true),
        family(0b0010, true),
        family(0b0111, true),
        family(0b0001, false),
        family(0b0100, true),
    ];
    assert_eq!(find_graphics_queue(&families), Ok(2));
    assert_eq!(find_graphics_queue(&vec![family(0b0001, true)]), Ok(0));
}

#[test]
fn device_without_graphics_queue_has_none() {
    assert_eq!(find_graphics_queue(&Vec::new()), Err(SuitabilityError::NoGraphicsQueue));
    assert_eq!(
        find_graphics_queue(&vec![family(0b0001, false), family(0b0110, true)]),
        Err(SuitabilityError::NoGraphicsQueue)
    );
}

#[test]
fn suitability_needs_extensions_formats_modes_and_a_queue() {
    let required = device_extensions();
    let good = device(&["VK_KHR_swapchain"], vec![family(1, true)], 1, 1);
    assert!(is_physical_device_suitable(&good, &required));
    assert!(!is_physical_device_suitable(&device(&[], vec![family(1, true)], 1, 1), &required));
    assert!(!is_physical_device_suitable(
        &device(&["VK_KHR_swapchain"], vec![family(1, true)], 0, 1),
        &required
    ));
    assert!(!is_physical_device_suitable(
        &device(&["VK_KHR_swapchain"], vec![family(1, true)], 1, 0),
        &required
    ));
    assert!(!is_physical_device_suitable(
        &device(&["VK_KHR_swapchain"], vec![family(2, true)], 1, 1),
        &required
    ));
}

#[test]
fn first_suitable_device_is_picked() {
    let required = device_extensions();
    let devices = vec![
        device(&[], vec![family(1, true)], 1, 1),
        device(&["VK_KHR_swapchain"], vec![family(1, true), family(3, true)], 2, 2),
        device(&["VK_KHR_swapchain"], vec![family(1, true)], 1, 1),
    ];
    assert_eq!(pick_physical_device(&devices, &required), Ok(1));
    assert_eq!(
        choose_device(&devices, &required),
        Ok(DeviceChoice { device: 1, graphics_queue: 1 })
    );
}

#[test]
fn no_suitable_device_is_fatal() {
    let required = device_extensions();
    assert_eq!(
        pick_physical_device(&Vec::new(), &required),
        Err(SuitabilityError::NoSuitableDevice)
    );
    let devices = vec![device(&[], vec![family(1, true)], 1, 1)];
    assert_eq!(
        pick_physical_device(&devices, &required),
        Err(SuitabilityError::NoSuitableDevice)
    );
    assert_eq!(choose_device(&devices, &required), Err(SuitabilityError::NoSuitableDevice));
}

#[test]
fn device_kinds_have_their_words() {
    assert_eq!(device_type_name(0), Some("Unknown"));
    assert_eq!(device_type_name(1), Some("Integrated GPU"));
    assert_eq!(device_type_name(2), Some("Discrete GPU"));
    assert_eq!(device_type_name(3), Some("Virtual GPU"));
    assert_eq!(device_type_name(4), Some("CPU"));
    assert_eq!(device_type_name(5), None);
    assert_eq!(device_type_name(-1), None);
}

#[test]
fn queue_family_row_marks_each_capability() {
    assert_eq!(
        describe_queue_family(&QueueFamily { flags: 0b0101, queue_count: 16, presents: false }),
        QueueFamilyRow {
            queue_count: 16,
            graphics: '+',
            compute: '-',
            transfer: '+',
            sparse_binding: '-',
        }
    );
    assert_eq!(
        describe_queue_family(&QueueFamily { flags: 0b1010, queue_count: 2, presents: true }),
        QueueFamilyRow {
            queue_count: 2,
            graphics: '-',
            compute: '+',
            transfer: '-',
            sparse_binding: '+',
        }
    );
}

#[test]
fn device_report_tells_what_was_chosen() {
    let chosen = device(&["VK_KHR_swapchain"], vec![family(0b1111, true), family(0b0100, false)], 4, 3);
    let report = print_device_information(&chosen).unwrap();
    assert_eq!(report.device_type, "Discrete GPU");
    assert_eq!(report.api_version, ApiVersion { major: 1, minor: 3, patch: 250 });
    assert_eq!(report.queue_families.len(), 2);
    assert_eq!(report.queue_families[0].graphics, '+');
    assert_eq!(report.queue_families[1].graphics, '-');
    assert_eq!(report.queue_families[1].transfer, '+');
    assert_eq!(report.graphics_queue, 0);
    assert_eq!(report.format_count, 4);
    assert_eq!(report.present_mode_count, 3);
    let mut strange = device(&[], vec![family(1, true)], 1, 1);
    strange.device_type = 9;
    assert!(print_device_information(&strange).is_none());
    assert!(print_device_information(&device(&[], Vec::new(), 1, 1)).is_none());
}

#[test]
fn queue_families_are_named_once() {
    assert_eq!(unique_queue_families(3, 3), vec![3]);
    assert_eq!(unique_queue_families(0, 2), vec![0, 2]);
}
