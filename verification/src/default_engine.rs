use crate::error::{is_error_status, outcome, ApiCall, Error, ErrorView, STATUS_TIMEOUT};
use crate::{make_version, packed_version, FrameSync, Image, SwapchainImage, VulkanSetup};
use vstd::prelude::*;

verus! {

/// The number of frames in flight. With more than one, CPU and GPU work in
/// parallel.
pub const N_FRAMES: usize = 2;

/// How long the CPU waits for the fence of a frame slot, in nanoseconds:
/// long, and not for ever.
pub const FENCE_TIMEOUT_NS: u64 = 5_000_000_000;

/// How waiting for the fence of a frame slot, and resetting it, ended.
#[derive(Clone, Copy, Debug, PartialEq, Eq, Structural)]
pub enum FenceOutcome {
    /// The fence was signalled in time and has been reset.
    Ready,
    /// The fence was not signalled within the timeout.
    TimedOut,
    /// Waiting failed with a status code.
    WaitFailed(i32),
    /// The fence was signalled, and resetting it failed with a status code.
    ResetFailed(i32),
}

/// How a wait that ended with the status `wait`, and the reset that followed
/// it with the status `reset`, ended together. The fence is reset only
/// where the wait found it signalled: otherwise `reset` counts for nothing.
pub open spec fn fence_outcome(wait: i32, reset: i32) -> FenceOutcome {
    if wait == STATUS_TIMEOUT {
        FenceOutcome::TimedOut
    } else if is_error_status(wait) {
        FenceOutcome::WaitFailed(wait)
    } else if is_error_status(reset) {
        FenceOutcome::ResetFailed(reset)
    } else {
        FenceOutcome::Ready
    }
}

impl FenceOutcome {
    /// Reads the statuses of the wait for a fence and of its reset.
    pub fn from_status(wait: i32, reset: i32) -> (ended: FenceOutcome)
        ensures
            ended == fence_outcome(wait, reset),
    {
        if wait == STATUS_TIMEOUT {
            FenceOutcome::TimedOut
        } else if wait < 0 {
            FenceOutcome::WaitFailed(wait)
        } else if reset < 0 {
            FenceOutcome::ResetFailed(reset)
        } else {
            FenceOutcome::Ready
        }
    }
}

/// The slot that follows the slot `index`: the slots are used in turn.
pub open spec fn next_slot(index: int) -> int {
    (index + 1) % (N_FRAMES as int)
}

/// The slot in use after `calls` frames have begun since the slot `index`
/// was in use.
pub open spec fn slot_after(index: int, calls: nat) -> int
    decreases calls,
{
    if calls == 0 {
        index
    } else {
        next_slot(slot_after(index, (calls - 1) as nat))
    }
}

/// What beginning a frame hands to its caller, for the slot that is to be
/// used and the way the wait for its fence ended.
pub open spec fn frame_result(slot: FrameSync, fence: FenceOutcome) -> Result<
    FrameSync,
    ErrorView,
> {
    match fence {
        FenceOutcome::Ready => Ok(slot),
        FenceOutcome::TimedOut => Err(ErrorView::DeviceLost),
        FenceOutcome::WaitFailed(code) => Err(
            ErrorView::NativeApiError(ApiCall::WaitForFences, code),
        ),
        FenceOutcome::ResetFailed(code) => Err(
            ErrorView::NativeApiError(ApiCall::ResetFences, code),
        ),
    }
}

/// The per-frame state of a renderer.
#[derive(Debug, PartialEq, Eq)]
pub struct Engine {
    /// The images of the swapchain.
    pub swapchain_images: Vec<SwapchainImage>,
    /// The depth image.
    pub depth_image: Image,
    /// The handles of the command buffers, one for each frame slot.
    pub command_buffers: [u64; N_FRAMES],
    /// The handle of the descriptor set layout.
    pub descriptor_set_layout: u64,
    /// The handle of the descriptor pool.
    pub descriptor_pool: u64,
    /// The handle of the command pool.
    pub command_pool: u64,
    /// The handle of the render pass.
    pub render_pass: u64,
    /// The synchronization primitives, one set for each frame slot.
    pub frame_sync: [FrameSync; N_FRAMES],
    /// The slot that can be written: the GPU does not use it.
    pub frame_idx: usize,
}

impl Engine {
    /// The index of the writable slot is the index of a slot.
    pub open spec fn wf(&self) -> bool {
        self.frame_idx < N_FRAMES
    }

    /// The slot that the next frame will use. Its fence is the one to wait
    /// for, with the timeout `FENCE_TIMEOUT_NS`, and then to reset, before
    /// the frame begins.
    pub fn upcoming_frame(&self) -> (slot: FrameSync)
        requires
            self.wf(),
        ensures
            slot == self.frame_sync[next_slot(self.frame_idx as int)],
    {
        self.frame_sync[(self.frame_idx + 1) % N_FRAMES]
    }

    /// Begins the next frame: moves on to the slot that follows, and hands
    /// out its semaphore and fence for the next submission where the wait
    /// for the fence ended well. A fence that was not signalled in time
    /// means that the device is lost.
    pub fn next_frame(&mut self, fence: FenceOutcome) -> (result: Result<FrameSync, Error>)
        requires
            old(self).wf(),
        ensures
            final(self).wf(),
            final(self).frame_idx == next_slot(old(self).frame_idx as int),
            *final(self) == (Engine { frame_idx: final(self).frame_idx, ..*old(self) }),
            outcome(result) == frame_result(
                old(self).frame_sync[next_slot(old(self).frame_idx as int)],
                fence,
            ),
    {
        self.frame_idx = (self.frame_idx + 1) % N_FRAMES;
        let slot = self.frame_sync[self.frame_idx];
        match fence {
            FenceOutcome::Ready => Ok(slot),
            FenceOutcome::TimedOut => Err(Error::DeviceLost),
            FenceOutcome::WaitFailed(code) => Err(
                Error::NativeApiError(ApiCall::WaitForFences, code),
            ),
            FenceOutcome::ResetFailed(code) => Err(
                Error::NativeApiError(ApiCall::ResetFences, code),
            ),
        }
    }
}

/// Frames in flight are bounded: the frame that begins `N_FRAMES` frames
/// after another uses the same slot, so it waits for the fence that the
/// earlier frame's submission signals; the frame in between uses the other
/// slot, and can be prepared while the GPU works on the earlier one.
pub proof fn lemma_slot_comes_round(index: int, calls: nat)
    requires
        0 <= index < N_FRAMES,
    ensures
        0 <= slot_after(index, calls) < N_FRAMES,
        slot_after(index, calls + N_FRAMES as nat) == slot_after(index, calls),
        slot_after(index, calls + 1) != slot_after(index, calls),
    decreases calls,
{
    reveal_with_fuel(slot_after, 3);
    if calls > 0 {
        lemma_slot_comes_round(index, (calls - 1) as nat);
    }
}

/// The setup of the default engine, for API version 1.0.0: with validation
/// where `validation` is set, plain where it is not.
pub fn vk_setup(validation: bool) -> (setup: VulkanSetup)
    ensures
        setup.api_version == packed_version(1, 0, 0),
        validation ==> setup.is_validating(),
        !validation ==> setup.is_plain(),
{
    let api_version = make_version(1, 0, 0);
    if validation {
        VulkanSetup::validation(api_version)
    } else {
        VulkanSetup {
            instance_layers: Vec::new(),
            instance_extensions: Vec::new(),
            device_layers: Vec::new(),
            device_extensions: Vec::new(),
            api_version,
        }
    }
}

} // verus!
