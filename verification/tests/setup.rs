use klystron::default_engine::vk_setup;
use klystron::{
    check_status, engine_version, ApiCall, ApplicationInfo, Error, VulkanSetup, ENGINE_NAME, ENGINE_VERSION_MAJOR,
    ENGINE_VERSION_MINOR, ENGINE_VERSION_PATCH, EXT_DEBUG_UTILS_EXTENSION_NAME,
    LAYER_KHRONOS_VALIDATION,
};

#[test]
fn engine_name_is_fixed() {
    assert_eq!(ENGINE_NAME, "Klystron II");
}

#[test]
fn engine_version_packs_the_three_parts() {
    assert_eq!((ENGINE_VERSION_MAJOR, ENGINE_VERSION_MINOR, ENGINE_VERSION_PATCH), (0, 1, 0));
    assert_eq!(engine_version(), 4096);
}

#[test]
fn engine_version_agrees_with_the_api_packing() {
    let expected = erupt::vk1_0::make_api_version(
        0,
        ENGINE_VERSION_MAJOR,
        ENGINE_VERSION_MINOR,
        ENGINE_VERSION_PATCH,
    );
    assert_eq!(engine_version(), expected);
}

#[test]
fn default_setup_is_plain_version_one() {
    let setup = VulkanSetup::default();
    assert_eq!(setup.api_version, 4_194_304);
    assert_eq!(setup.api_version, erupt::vk1_0::API_VERSION_1_0);
    assert!(setup.instance_layers.is_empty());
    assert!(setup.instance_extensions.is_empty());
    assert!(setup.device_layers.is_empty());
    assert!(setup.device_extensions.is_empty());
}

#[test]
fn validation_setup_names_layer_and_extension() {
    let setup = VulkanSetup::validation(4_198_400);
    assert_eq!(setup.api_version, 4_198_400);
    assert_eq!(setup.instance_layers, vec!["VK_LAYER_KHRONOS_validation".to_string()]);
    assert_eq!(setup.instance_extensions, vec!["VK_EXT_debug_utils".to_string()]);
    assert_eq!(setup.device_layers, vec!["VK_LAYER_KHRONOS_validation".to_string()]);
    assert!(setup.device_extensions.is_empty());
    assert_eq!(LAYER_KHRONOS_VALIDATION, "VK_LAYER_KHRONOS_validation");
    assert_eq!(EXT_DEBUG_UTILS_EXTENSION_NAME, "VK_EXT_debug_utils");
}

#[test]
fn vk_setup_with_validation_enables_it() {
    let setup = vk_setup(true);
    assert_eq!(setup, VulkanSetup::validation(4_194_304));
}

#[test]
fn vk_setup_without_validation_is_the_default() {
    let setup = vk_setup(false);
    assert_eq!(setup, VulkanSetup::default());
}

#[test]
fn application_info_holds_name_and_version() {
    let info = ApplicationInfo { name: "Test app".to_string(), version: 4_194_304 };
    assert_eq!(info.name, "Test app");
    assert_eq!(info.version, erupt::vk1_0::make_api_version(0, 1, 0, 0));
}

#[test]
fn statuses_that_are_not_negative_are_successes() {
    assert_eq!(check_status(ApiCall::CreateResource, 0), Ok(()));
    assert_eq!(check_status(ApiCall::WaitForFences, 2), Ok(()));
    assert_eq!(check_status(ApiCall::QueuePresent, 1_000_001_003), Ok(()));
    assert_eq!(check_status(ApiCall::AcquireNextImage, i32::MAX), Ok(()));
}

#[test]
fn error_statuses_carry_call_and_code() {
    assert_eq!(
        check_status(ApiCall::BindMemory, -2),
        Err(Error::NativeApiError(ApiCall::BindMemory, -2))
    );
    assert_eq!(
        check_status(ApiCall::EnumeratePhysicalDevices, i32::MIN),
        Err(Error::NativeApiError(ApiCall::EnumeratePhysicalDevices, i32::MIN))
    );
    assert_eq!(
        check_status(ApiCall::CreateSwapchain, -1_000_001_003),
        Err(Error::NativeApiError(ApiCall::CreateSwapchain, -1_000_001_003))
    );
}

#[test]
fn out_of_date_status_is_told_apart() {
    assert_eq!(
        check_status(ApiCall::AcquireNextImage, -1_000_001_004),
        Err(Error::SwapchainOutOfDate)
    );
    assert_eq!(check_status(ApiCall::QueuePresent, -1_000_001_004), Err(Error::SwapchainOutOfDate));
}
