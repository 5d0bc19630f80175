use klystron::hardware::{
    check_supported_extensions, contains_flags, find_surface_queue_family,
    find_utility_queue_family, query, score_hardware_config, select_hardware_physical_device,
    select_present_mode, select_surface_format, select_surface_info, unsupported_extensions,
    PhysicalDeviceInfo, PhysicalDeviceProperties, QueueFamily, SurfaceFormat, SurfaceInfo,
    COLOR_FORMAT, COLOR_SPACE, DEVICE_TYPE_DISCRETE_GPU, DEVICE_TYPE_INTEGRATED_GPU,
    PRESENT_MODE_FIFO, PRESENT_MODE_MAILBOX, QUEUE_COMPUTE, QUEUE_GRAPHICS, QUEUE_TRANSFER,
};
use klystron::{ApiCall, Error, HardwareSelection};

const DEVICE_TYPE_OTHER: i32 = 0;
const DEVICE_TYPE_CPU: i32 = 4;

fn family(queue_flags: u32, surface_support: Result<bool, i32>) -> QueueFamily {
    QueueFamily { queue_flags, queue_count: 1, surface_support }
}

fn names(list: &[&str]) -> Vec<String> {
    list.iter().map(|name| name.to_string()).collect()
}

fn properties(device_type: i32, name: &str) -> PhysicalDeviceProperties {
    PhysicalDeviceProperties {
        api_version: 4_194_304,
        driver_version: 7,
        vendor_id: 0x10de,
        device_id: 42,
        device_type,
        device_name: name.to_string(),
    }
}

fn preferred() -> SurfaceFormat {
    SurfaceFormat { format: COLOR_FORMAT, color_space: COLOR_SPACE }
}

/// A device with one family that does everything, the preferred format,
/// FIFO only, and the extension `X`.
fn device(handle: u64, device_type: i32) -> PhysicalDeviceInfo {
    PhysicalDeviceInfo {
        physical_device: handle,
        properties: properties(device_type, "gpu"),
        queue_families: vec![family(
            QUEUE_GRAPHICS | QUEUE_COMPUTE | QUEUE_TRANSFER,
            Ok(true),
        )],
        surface_formats: Ok(vec![preferred()]),
        present_modes: Ok(vec![PRESENT_MODE_FIFO]),
        extensions: Ok(names(&["X"])),
    }
}

#[test]
fn constants_are_those_of_the_api() {
    assert_eq!(QUEUE_GRAPHICS, erupt::vk1_0::QueueFlags::GRAPHICS.bits());
    assert_eq!(QUEUE_COMPUTE, erupt::vk1_0::QueueFlags::COMPUTE.bits());
    assert_eq!(QUEUE_TRANSFER, erupt::vk1_0::QueueFlags::TRANSFER.bits());
    assert_eq!(DEVICE_TYPE_DISCRETE_GPU, erupt::vk1_0::PhysicalDeviceType::DISCRETE_GPU.0);
    assert_eq!(DEVICE_TYPE_INTEGRATED_GPU, erupt::vk1_0::PhysicalDeviceType::INTEGRATED_GPU.0);
    assert_eq!(DEVICE_TYPE_OTHER, erupt::vk1_0::PhysicalDeviceType::OTHER.0);
    assert_eq!(DEVICE_TYPE_CPU, erupt::vk1_0::PhysicalDeviceType::CPU.0);
    assert_eq!(COLOR_FORMAT, erupt::vk1_0::Format::B8G8R8A8_SRGB.0);
    assert_eq!(
        COLOR_SPACE,
        erupt::extensions::khr_surface::ColorSpaceKHR::SRGB_NONLINEAR_KHR.0
    );
    assert_eq!(
        PRESENT_MODE_MAILBOX,
        erupt::extensions::khr_surface::PresentModeKHR::MAILBOX_KHR.0
    );
    assert_eq!(PRESENT_MODE_FIFO, erupt::extensions::khr_surface::PresentModeKHR::FIFO_KHR.0);
}

#[test]
fn contains_flags_wants_every_bit() {
    assert!(contains_flags(0b0111, 0b0101));
    assert!(contains_flags(0b0111, 0));
    assert!(!contains_flags(0b0100, 0b0101));
    assert!(!contains_flags(0, QUEUE_GRAPHICS));
}

#[test]
fn surface_family_is_the_first_that_presents_graphics() {
    let families = vec![
        family(QUEUE_TRANSFER, Ok(true)),
        family(QUEUE_GRAPHICS, Ok(false)),
        family(QUEUE_GRAPHICS | QUEUE_COMPUTE, Ok(true)),
        family(QUEUE_GRAPHICS, Ok(true)),
    ];
    assert_eq!(find_surface_queue_family(&families), Ok(2));
}

#[test]
fn surface_family_missing_is_no_suitable_hardware() {
    let families = vec![family(QUEUE_COMPUTE, Ok(true)), family(QUEUE_GRAPHICS, Ok(false))];
    assert_eq!(find_surface_queue_family(&families), Err(Error::NoSuitableHardware));
    assert_eq!(find_surface_queue_family(&Vec::new()), Err(Error::NoSuitableHardware));
}

#[test]
fn surface_query_error_before_a_match_is_passed_on() {
    let families = vec![
        family(QUEUE_GRAPHICS, Ok(false)),
        family(QUEUE_TRANSFER, Err(-3)),
        family(QUEUE_GRAPHICS, Ok(true)),
    ];
    assert_eq!(
        find_surface_queue_family(&families),
        Err(Error::NativeApiError(ApiCall::SurfaceSupport, -3))
    );
}

#[test]
fn surface_query_error_after_a_match_is_never_seen() {
    let families = vec![family(QUEUE_GRAPHICS, Ok(true)), family(QUEUE_GRAPHICS, Err(-3))];
    assert_eq!(find_surface_queue_family(&families), Ok(0));
}

#[test]
fn utility_family_needs_compute_and_transfer() {
    let families = vec![
        family(QUEUE_GRAPHICS | QUEUE_TRANSFER, Ok(true)),
        family(QUEUE_COMPUTE, Ok(false)),
        family(QUEUE_COMPUTE | QUEUE_TRANSFER, Err(-1)),
        family(QUEUE_GRAPHICS | QUEUE_COMPUTE | QUEUE_TRANSFER, Ok(true)),
    ];
    assert_eq!(find_utility_queue_family(&families), Ok(2));
}

#[test]
fn utility_family_is_not_found_by_graphics_alone() {
    let families = vec![family(QUEUE_GRAPHICS | QUEUE_TRANSFER, Ok(true))];
    assert_eq!(find_utility_queue_family(&families), Err(Error::NoSuitableHardware));
    assert_eq!(find_utility_queue_family(&Vec::new()), Err(Error::NoSuitableHardware));
}

#[test]
fn preferred_surface_format_wins_wherever_it_stands() {
    let other = SurfaceFormat { format: 44, color_space: 0 };
    let formats = vec![other, SurfaceFormat { format: COLOR_FORMAT, color_space: 7 }, preferred()];
    assert_eq!(select_surface_format(&formats), Ok(preferred()));
}

#[test]
fn first_surface_format_is_the_fallback() {
    let first = SurfaceFormat { format: 44, color_space: 0 };
    let formats = vec![first, SurfaceFormat { format: COLOR_FORMAT, color_space: 7 }];
    assert_eq!(select_surface_format(&formats), Ok(first));
}

#[test]
fn no_surface_format_is_an_error() {
    assert_eq!(select_surface_format(&Vec::new()), Err(Error::NoSuitableSurfaceFormat));
}

#[test]
fn mailbox_is_preferred_and_fifo_the_fallback() {
    assert_eq!(select_present_mode(&vec![0, PRESENT_MODE_FIFO, PRESENT_MODE_MAILBOX]), 1);
    assert_eq!(select_present_mode(&vec![0, PRESENT_MODE_FIFO, 3]), 2);
    assert_eq!(select_present_mode(&Vec::new()), PRESENT_MODE_FIFO);
}

#[test]
fn surface_info_joins_format_and_mode() {
    let formats = vec![SurfaceFormat { format: 37, color_space: 0 }];
    assert_eq!(
        select_surface_info(&formats, &vec![PRESENT_MODE_MAILBOX]),
        Ok(SurfaceInfo {
            format: SurfaceFormat { format: 37, color_space: 0 },
            present_mode: PRESENT_MODE_MAILBOX
        })
    );
    assert_eq!(
        select_surface_info(&Vec::new(), &vec![PRESENT_MODE_MAILBOX]),
        Err(Error::NoSuitableSurfaceFormat)
    );
}

#[test]
fn supported_extensions_come_back_whole() {
    let supported = names(&["A", "B", "C"]);
    let result = check_supported_extensions(supported.clone(), &names(&["C", "A"]));
    assert_eq!(result, Ok(supported));
}

#[test]
fn no_request_is_always_supported() {
    assert_eq!(check_supported_extensions(Vec::new(), &Vec::new()), Ok(Vec::new()));
}

#[test]
fn missing_extensions_are_listed_in_request_order() {
    let supported = names(&["A", "B"]);
    let requested = names(&["Z", "A", "Y", "Z"]);
    assert_eq!(unsupported_extensions(&supported, &requested), names(&["Z", "Y", "Z"]));
    assert_eq!(
        check_supported_extensions(supported, &requested),
        Err(Error::UnsupportedExtension(names(&["Z", "Y", "Z"])))
    );
}

#[test]
fn extension_names_match_whole_and_by_case() {
    let supported = names(&["VK_KHR_swapchain"]);
    assert_eq!(
        unsupported_extensions(&supported, &names(&["VK_KHR_swap", "vk_khr_swapchain"])),
        names(&["VK_KHR_swap", "vk_khr_swapchain"])
    );
}

#[test]
fn score_follows_the_device_type() {
    let selection = |device_type| {
        select_hardware_physical_device(&device(1, device_type), &Vec::new()).unwrap()
    };
    assert_eq!(score_hardware_config(&selection(DEVICE_TYPE_DISCRETE_GPU)), 2);
    assert_eq!(score_hardware_config(&selection(DEVICE_TYPE_INTEGRATED_GPU)), 1);
    assert_eq!(score_hardware_config(&selection(DEVICE_TYPE_OTHER)), 0);
    assert_eq!(score_hardware_config(&selection(3)), 0);
    assert_eq!(score_hardware_config(&selection(DEVICE_TYPE_CPU)), 0);
    assert_eq!(score_hardware_config(&selection(-1)), 0);
}

#[test]
fn device_selection_resolves_everything() {
    let mut info = device(9, DEVICE_TYPE_INTEGRATED_GPU);
    info.queue_families = vec![
        family(QUEUE_COMPUTE | QUEUE_TRANSFER, Ok(false)),
        family(QUEUE_GRAPHICS, Ok(true)),
    ];
    info.surface_formats = Ok(vec![SurfaceFormat { format: 44, color_space: 0 }, preferred()]);
    info.present_modes = Ok(vec![PRESENT_MODE_FIFO, PRESENT_MODE_MAILBOX]);
    let selection = select_hardware_physical_device(&info, &names(&["X"]));
    assert_eq!(
        selection,
        Ok(HardwareSelection {
            physical_device: 9,
            physical_device_properties: properties(DEVICE_TYPE_INTEGRATED_GPU, "gpu"),
            graphics_queue_family: 1,
            utility_queue_family: 0,
            format: preferred(),
            present_mode: PRESENT_MODE_MAILBOX,
        })
    );
}

#[test]
fn device_selection_reports_the_first_obstacle() {
    let required = names(&["X", "Y"]);

    let mut no_graphics = device(1, DEVICE_TYPE_DISCRETE_GPU);
    no_graphics.queue_families = vec![family(QUEUE_COMPUTE | QUEUE_TRANSFER, Ok(true))];
    no_graphics.extensions = Ok(Vec::new());
    assert_eq!(
        select_hardware_physical_device(&no_graphics, &required),
        Err(Error::NoSuitableHardware)
    );

    let mut no_utility = device(1, DEVICE_TYPE_DISCRETE_GPU);
    no_utility.queue_families = vec![family(QUEUE_GRAPHICS, Ok(true))];
    assert_eq!(
        select_hardware_physical_device(&no_utility, &required),
        Err(Error::NoSuitableHardware)
    );

    let mut lacks_extension = device(1, DEVICE_TYPE_DISCRETE_GPU);
    lacks_extension.surface_formats = Ok(Vec::new());
    assert_eq!(
        select_hardware_physical_device(&lacks_extension, &required),
        Err(Error::UnsupportedExtension(names(&["Y"])))
    );

    let mut extension_query_failed = device(1, DEVICE_TYPE_DISCRETE_GPU);
    extension_query_failed.extensions = Err(-4);
    assert_eq!(
        select_hardware_physical_device(&extension_query_failed, &required),
        Err(Error::NativeApiError(ApiCall::DeviceExtensions, -4))
    );

    let mut format_query_failed = device(1, DEVICE_TYPE_DISCRETE_GPU);
    format_query_failed.surface_formats = Err(-2);
    format_query_failed.present_modes = Err(-9);
    assert_eq!(
        select_hardware_physical_device(&format_query_failed, &names(&["X"])),
        Err(Error::NativeApiError(ApiCall::SurfaceFormats, -2))
    );

    let mut no_format = device(1, DEVICE_TYPE_DISCRETE_GPU);
    no_format.surface_formats = Ok(Vec::new());
    no_format.present_modes = Err(-9);
    assert_eq!(
        select_hardware_physical_device(&no_format, &names(&["X"])),
        Err(Error::NoSuitableSurfaceFormat)
    );

    let mut mode_query_failed = device(1, DEVICE_TYPE_DISCRETE_GPU);
    mode_query_failed.present_modes = Err(-9);
    assert_eq!(
        select_hardware_physical_device(&mode_query_failed, &names(&["X"])),
        Err(Error::NativeApiError(ApiCall::PresentModes, -9))
    );
}

#[test]
fn discrete_device_is_picked_in_every_order() {
    let types = [DEVICE_TYPE_INTEGRATED_GPU, DEVICE_TYPE_DISCRETE_GPU, DEVICE_TYPE_OTHER];
    let orders = [[0, 1, 2], [0, 2, 1], [1, 0, 2], [1, 2, 0], [2, 0, 1], [2, 1, 0]];
    for order in orders {
        let devices: Vec<PhysicalDeviceInfo> =
            order.iter().map(|&i| device(100 + i as u64, types[i])).collect();
        let selection = query(&devices, &names(&["X"])).unwrap();
        assert_eq!(selection.physical_device, 101);
        assert_eq!(selection.physical_device_properties.device_type, DEVICE_TYPE_DISCRETE_GPU);
        assert_eq!(score_hardware_config(&selection), 2);
    }
}

#[test]
fn discrete_device_that_does_not_qualify_is_passed_over() {
    let mut discrete = device(1, DEVICE_TYPE_DISCRETE_GPU);
    discrete.extensions = Ok(names(&["W"]));
    let devices = vec![device(2, DEVICE_TYPE_OTHER), discrete, device(3, DEVICE_TYPE_INTEGRATED_GPU)];
    let selection = query(&devices, &names(&["X"])).unwrap();
    assert_eq!(selection.physical_device, 3);
    assert_eq!(score_hardware_config(&selection), 1);
}

#[test]
fn equal_scores_go_to_the_device_seen_first() {
    let devices = vec![
        device(1, DEVICE_TYPE_OTHER),
        device(2, DEVICE_TYPE_DISCRETE_GPU),
        device(3, DEVICE_TYPE_DISCRETE_GPU),
        device(4, DEVICE_TYPE_INTEGRATED_GPU),
    ];
    assert_eq!(query(&devices, &Vec::new()).unwrap().physical_device, 2);

    let others = vec![device(7, 3), device(8, DEVICE_TYPE_OTHER), device(9, DEVICE_TYPE_CPU)];
    assert_eq!(query(&others, &Vec::new()).unwrap().physical_device, 7);
}

#[test]
fn no_device_is_no_suitable_hardware() {
    assert_eq!(query(&Vec::new(), &Vec::new()), Err(Error::NoSuitableHardware));
}

#[test]
fn no_qualifying_device_is_no_suitable_hardware() {
    let mut lacks_extension = device(1, DEVICE_TYPE_DISCRETE_GPU);
    lacks_extension.extensions = Ok(Vec::new());
    let mut no_queues = device(2, DEVICE_TYPE_DISCRETE_GPU);
    no_queues.queue_families = Vec::new();
    let mut broken = device(3, DEVICE_TYPE_DISCRETE_GPU);
    broken.surface_formats = Err(-1);
    let devices = vec![lacks_extension, no_queues, broken];
    assert_eq!(query(&devices, &names(&["X"])), Err(Error::NoSuitableHardware));
}

#[test]
fn hardware_without_a_surface_format_is_told_apart() {
    let mut lacks_extension = device(1, DEVICE_TYPE_DISCRETE_GPU);
    lacks_extension.extensions = Ok(Vec::new());
    let mut no_format = device(2, DEVICE_TYPE_INTEGRATED_GPU);
    no_format.surface_formats = Ok(Vec::new());
    let devices = vec![lacks_extension, no_format];
    assert_eq!(query(&devices, &names(&["X"])), Err(Error::NoSuitableSurfaceFormat));

    let mut with_good = devices;
    with_good.push(device(3, DEVICE_TYPE_OTHER));
    assert_eq!(query(&with_good, &names(&["X"])).unwrap().physical_device, 3);
}

#[test]
fn one_discrete_gpu_with_one_family_for_everything() {
    let devices = vec![device(77, DEVICE_TYPE_DISCRETE_GPU)];
    let selection = query(&devices, &names(&["X"])).unwrap();
    assert_eq!(selection.graphics_queue_family, selection.utility_queue_family);
    assert_eq!(selection.graphics_queue_family, 0);
    assert_eq!(score_hardware_config(&selection), 2);
    assert_eq!(selection.physical_device, 77);
    assert_eq!(selection.format, preferred());
    assert_eq!(selection.present_mode, PRESENT_MODE_FIFO);
}
