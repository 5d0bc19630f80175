//! A thin runtime layer over an explicit GPU API: hardware selection, the
//! lifecycle of GPU-resident memory objects, frames in flight and the
//! swapchain state machine.
//!
//! The library decides; it never talks to a driver. Callers hand it what the
//! driver reported as plain values and carry out what it answers.

use vstd::prelude::*;

pub mod default_engine;
pub mod error;
pub mod hardware;
pub mod mem_objects;
pub mod memory;
pub mod session;
pub mod windowed;

pub use crate::error::{
    check_status, ApiCall, Error, ErrorView, STATUS_NOT_READY, STATUS_OUT_OF_DATE, STATUS_SUCCESS,
    STATUS_TIMEOUT,
};
pub use crate::hardware::HardwareSelection;
pub use crate::session::{
    AllocOutcome, AllocationFailure, Allocator, BlockId, Core, LockOutcome, Memory,
};

verus! {

/// The name under which the engine introduces itself to the driver.
pub const ENGINE_NAME: &'static str = "Klystron II";

/// The name of the validation layer.
pub const LAYER_KHRONOS_VALIDATION: &'static str = "VK_LAYER_KHRONOS_validation";

/// The name of the debug-utils instance extension.
pub const EXT_DEBUG_UTILS_EXTENSION_NAME: &'static str = "VK_EXT_debug_utils";

/// The major version of the engine.
pub const ENGINE_VERSION_MAJOR: u32 = 0;

/// The minor version of the engine.
pub const ENGINE_VERSION_MINOR: u32 = 1;

/// The patch version of the engine.
pub const ENGINE_VERSION_PATCH: u32 = 0;

/// A version number as the API packs it: the major version from bit 22 up,
/// the minor version from bit 12 up, the patch version below.
pub open spec fn packed_version(major: u32, minor: u32, patch: u32) -> u32 {
    (major << 22) | (minor << 12) | patch
}

/// Packs a version number with `erupt::vk1_0::make_version`.
///
/// Trusted: the result is the three parts shifted to their places and or-ed
/// together, as that function's body computes it.
#[allow(deprecated)]
#[verifier::external_body]
pub(crate) fn make_version(major: u32, minor: u32, patch: u32) -> (version: u32)
    ensures
        version == packed_version(major, minor, patch),
{
    erupt::vk1_0::make_version(major, minor, patch)
}

/// The version of this engine, packed for the API.
pub fn engine_version() -> (version: u32)
    ensures
        version == packed_version(
            ENGINE_VERSION_MAJOR,
            ENGINE_VERSION_MINOR,
            ENGINE_VERSION_PATCH,
        ),
{
    make_version(ENGINE_VERSION_MAJOR, ENGINE_VERSION_MINOR, ENGINE_VERSION_PATCH)
}

/// The layers, extensions and API version that a session is set up with.
#[derive(Clone, Debug, PartialEq, Eq)]
pub struct VulkanSetup {
    /// The names of the instance layers to enable.
    pub instance_layers: Vec<String>,
    /// The names of the instance extensions to enable.
    pub instance_extensions: Vec<String>,
    /// The names of the device layers to enable.
    pub device_layers: Vec<String>,
    /// The names of the device extensions to enable.
    pub device_extensions: Vec<String>,
    /// The API version asked for, packed.
    pub api_version: u32,
}

impl VulkanSetup {
    /// The setup enables nothing.
    pub open spec fn is_plain(self) -> bool {
        &&& self.instance_layers@.len() == 0
        &&& self.instance_extensions@.len() == 0
        &&& self.device_layers@.len() == 0
        &&& self.device_extensions@.len() == 0
    }

    /// The setup enables validation and nothing else: the validation layer
    /// for the instance and for the device, and the debug-utils extension,
    /// which is an extension of the instance.
    pub open spec fn is_validating(self) -> bool {
        &&& self.instance_layers.deep_view() == seq![LAYER_KHRONOS_VALIDATION@]
        &&& self.instance_extensions.deep_view() == seq![EXT_DEBUG_UTILS_EXTENSION_NAME@]
        &&& self.device_layers.deep_view() == seq![LAYER_KHRONOS_VALIDATION@]
        &&& self.device_extensions@.len() == 0
    }

    /// A setup with validation enabled, for the given API version.
    pub fn validation(api_version: u32) -> (setup: Self)
        ensures
            setup.is_validating(),
            setup.api_version == api_version,
    {
        let mut instance_layers: Vec<String> = Vec::new();
        instance_layers.push(LAYER_KHRONOS_VALIDATION.to_owned());
        let mut instance_extensions: Vec<String> = Vec::new();
        instance_extensions.push(EXT_DEBUG_UTILS_EXTENSION_NAME.to_owned());
        let mut device_layers: Vec<String> = Vec::new();
        device_layers.push(LAYER_KHRONOS_VALIDATION.to_owned());
        let setup = VulkanSetup {
            instance_layers,
            instance_extensions,
            device_layers,
            device_extensions: Vec::new(),
            api_version,
        };
        assert(setup.instance_layers.deep_view() =~= seq![LAYER_KHRONOS_VALIDATION@]);
        assert(setup.instance_extensions.deep_view() =~= seq![EXT_DEBUG_UTILS_EXTENSION_NAME@]);
        assert(setup.device_layers.deep_view() =~= seq![LAYER_KHRONOS_VALIDATION@]);
        setup
    }
}

impl Default for VulkanSetup {
    /// Enables nothing and asks for API version 1.0.0.
    fn default() -> (setup: Self)
        ensures
            setup.is_plain(),
            setup.api_version == packed_version(1, 0, 0),
    {
        VulkanSetup {
            instance_layers: Vec::new(),
            instance_extensions: Vec::new(),
            device_layers: Vec::new(),
            device_extensions: Vec::new(),
            api_version: make_version(1, 0, 0),
        }
    }
}

/// What the application tells the driver of itself.
#[derive(Clone, Debug, PartialEq, Eq)]
pub struct ApplicationInfo {
    /// The application's name.
    pub name: String,
    /// The application's version, packed.
    pub version: u32,
}

/// A width and a height, in pixels.
#[derive(Clone, Copy, Debug, PartialEq, Eq, Structural)]
pub struct Extent2D {
    /// The width.
    pub width: u32,
    /// The height.
    pub height: u32,
}

/// The synchronization primitives of one frame slot. They are signalled
/// when the frame that used the slot has finished.
#[derive(Clone, Copy, Debug, PartialEq, Eq, Structural)]
pub struct FrameSync {
    /// The handle of the semaphore, which orders work on the GPU.
    pub semaphore: u64,
    /// The handle of the fence, which the CPU waits for.
    pub fence: u64,
}

/// A set of meshes that are allocated and freed together.
#[derive(Debug, PartialEq, Eq)]
pub struct MeshBundle {
    /// The handle of the vertex buffer.
    pub vertices: u64,
    /// The handle of the index buffer.
    pub indices: u64,
    /// The memory behind both buffers.
    pub memory: Memory,
}

/// A pipeline that can render an object.
#[derive(Clone, Copy, Debug, PartialEq, Eq, Structural)]
pub struct Material {
    /// The handle of the pipeline.
    pub pipeline: u64,
    /// The handle of the pipeline's layout.
    pub pipeline_layout: u64,
}

/// An image with its view and its extent.
#[derive(Clone, Copy, Debug, PartialEq, Eq, Structural)]
pub struct Image {
    /// The handle of the image.
    pub image: u64,
    /// The handle of the image's view.
    pub view: u64,
    /// The extent of the image.
    pub extent: Extent2D,
}

/// An image of the swapchain, with the fence that tells when it is unused.
#[derive(Clone, Copy, Debug, PartialEq, Eq, Structural)]
pub struct SwapchainImage {
    /// The handle of the image's view.
    pub view: u64,
    /// The extent of the image.
    pub extent: Extent2D,
    /// The handle of the fence that is signalled when the image is unused.
    pub fence: u64,
}

} // verus!
