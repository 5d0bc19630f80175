use vstd::prelude::*;

verus! {

/// The status with which a native call reports plain success. Every error
/// status is negative; the other statuses that are not negative report a
/// success with a remark.
pub const STATUS_SUCCESS: i32 = 0;

/// The status with which a call that does not wait reports that what it
/// was asked for is not there yet.
pub const STATUS_NOT_READY: i32 = 1;

/// The status with which a wait reports that its time ran out.
pub const STATUS_TIMEOUT: i32 = 2;

/// The status with which acquiring and presenting report that the surface no
/// longer matches the swapchain.
pub const STATUS_OUT_OF_DATE: i32 = -1000001004;

/// Whether a status reports an error.
pub open spec fn is_error_status(status: i32) -> bool {
    status < 0
}

/// A call into the native graphics API whose status code can reach the caller.
#[derive(Clone, Copy, Debug, PartialEq, Eq, Structural)]
pub enum ApiCall {
    /// Listing the instance extensions a window needs.
    EnumerateRequiredExtensions,
    /// Listing the physical devices of an instance.
    EnumeratePhysicalDevices,
    /// Asking whether a queue family can present to a surface.
    SurfaceSupport,
    /// Listing the formats of a surface.
    SurfaceFormats,
    /// Listing the present modes of a surface.
    PresentModes,
    /// Listing the extensions of a physical device.
    DeviceExtensions,
    /// Creating an image or a buffer.
    CreateResource,
    /// Binding a memory block to an image or a buffer.
    BindMemory,
    /// Waiting for the fence of a frame slot.
    WaitForFences,
    /// Resetting the fence of a frame slot.
    ResetFences,
    /// Creating a swapchain and its per-image resources.
    CreateSwapchain,
    /// Acquiring the next presentable image.
    AcquireNextImage,
    /// Presenting an image.
    QueuePresent,
}

/// Everything that can go wrong in the runtime layer.
#[derive(Clone, Debug, PartialEq, Eq)]
pub enum Error {
    /// No physical device has the queue families and extensions asked for.
    NoSuitableHardware,
    /// A device has the hardware asked for, but its surface reports no format.
    NoSuitableSurfaceFormat,
    /// The requested extensions that a device lacks, in the order of the request.
    UnsupportedExtension(Vec<String>),
    /// The lock around the allocator is poisoned.
    AllocatorUnavailable,
    /// The allocator could not serve a request.
    AllocationFailed,
    /// A native call returned an error status.
    NativeApiError(ApiCall, i32),
    /// The surface no longer matches the swapchain. Presentation recovers
    /// from this by itself and never fails with it.
    SwapchainOutOfDate,
    /// The device did not answer within the time allowed.
    DeviceLost,
}

/// What an [`Error`] says, with names as sequences of characters.
pub enum ErrorView {
    NoSuitableHardware,
    NoSuitableSurfaceFormat,
    UnsupportedExtension(Seq<Seq<char>>),
    AllocatorUnavailable,
    AllocationFailed,
    NativeApiError(ApiCall, i32),
    SwapchainOutOfDate,
    DeviceLost,
}

impl View for Error {
    type V = ErrorView;

    open spec fn view(&self) -> ErrorView {
        match *self {
            Error::NoSuitableHardware => ErrorView::NoSuitableHardware,
            Error::NoSuitableSurfaceFormat => ErrorView::NoSuitableSurfaceFormat,
            Error::UnsupportedExtension(names) => ErrorView::UnsupportedExtension(
                names.deep_view(),
            ),
            Error::AllocatorUnavailable => ErrorView::AllocatorUnavailable,
            Error::AllocationFailed => ErrorView::AllocationFailed,
            Error::NativeApiError(call, code) => ErrorView::NativeApiError(call, code),
            Error::SwapchainOutOfDate => ErrorView::SwapchainOutOfDate,
            Error::DeviceLost => ErrorView::DeviceLost,
        }
    }
}

/// What the status of a native call means for the caller: an out-of-date
/// surface is told apart, because it is recovered from; any other error
/// status is passed on with the call it came from; a status that is not
/// negative is a success.
pub open spec fn status_result(call: ApiCall, status: i32) -> Result<(), ErrorView> {
    if status == STATUS_OUT_OF_DATE {
        Err(ErrorView::SwapchainOutOfDate)
    } else if is_error_status(status) {
        Err(ErrorView::NativeApiError(call, status))
    } else {
        Ok(())
    }
}

/// Reads the status of a native call.
pub fn check_status(call: ApiCall, status: i32) -> (result: Result<(), Error>)
    ensures
        outcome(result) == status_result(call, status),
{
    if status == STATUS_OUT_OF_DATE {
        Err(Error::SwapchainOutOfDate)
    } else if status < 0 {
        Err(Error::NativeApiError(call, status))
    } else {
        Ok(())
    }
}

/// A result with its error taken by its view.
pub open spec fn outcome<T>(result: Result<T, Error>) -> Result<T, ErrorView> {
    match result {
        Ok(value) => Ok(value),
        Err(error) => Err(error@),
    }
}

} // verus!
