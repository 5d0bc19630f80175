use crate::error::{
    is_error_status, outcome, ApiCall, Error, ErrorView, STATUS_NOT_READY, STATUS_OUT_OF_DATE,
    STATUS_TIMEOUT,
};
use crate::hardware::HardwareSelection;
use crate::{Extent2D, VulkanSetup};
use vstd::prelude::*;

verus! {

/// The name of the swapchain device extension.
pub const KHR_SWAPCHAIN_EXTENSION_NAME: &'static str = "VK_KHR_swapchain";

/// Adds to `setup` the extensions that presenting to a window needs: the
/// instance extensions that the window requires, in their order, and the
/// swapchain extension of the device.
///
/// Where the window's extensions could not be listed, the status code is
/// passed on and `setup` stays as it was.
pub fn extensions(setup: &mut VulkanSetup, required: Result<Vec<String>, i32>) -> (result: Result<
    (),
    Error,
>)
    ensures
        match required {
            Ok(names) => {
                &&& result is Ok
                &&& final(setup).instance_extensions@ == old(setup).instance_extensions@ + names@
                &&& final(setup).device_extensions.deep_view() == old(
                    setup,
                ).device_extensions.deep_view().push(KHR_SWAPCHAIN_EXTENSION_NAME@)
                &&& final(setup).instance_layers == old(setup).instance_layers
                &&& final(setup).device_layers == old(setup).device_layers
                &&& final(setup).api_version == old(setup).api_version
            },
            Err(code) => {
                &&& outcome(result) == Err::<(), ErrorView>(
                    ErrorView::NativeApiError(ApiCall::EnumerateRequiredExtensions, code),
                )
                &&& *final(setup) == *old(setup)
            },
        },
{
    match required {
        Ok(names) => {
            let mut names = names;
            setup.instance_extensions.append(&mut names);
            setup.device_extensions.push(KHR_SWAPCHAIN_EXTENSION_NAME.to_owned());
            assert(setup.device_extensions.deep_view() =~= old(
                setup,
            ).device_extensions.deep_view().push(KHR_SWAPCHAIN_EXTENSION_NAME@));
            Ok(())
        },
        Err(code) => Err(Error::NativeApiError(ApiCall::EnumerateRequiredExtensions, code)),
    }
}

/// What a surface can do, as far as the swapchain depends on it.
#[derive(Clone, Copy, Debug, PartialEq, Eq, Structural)]
pub struct SurfaceCapabilities {
    /// The least number of images a swapchain for the surface has.
    pub min_image_count: u32,
    /// The greatest number of images a swapchain for the surface can have;
    /// 0 where there is no limit.
    pub max_image_count: u32,
    /// The current extent of the surface.
    pub current_extent: Extent2D,
}

/// The number of images to ask for: one more than the least, and no more
/// than the greatest where there is a limit.
pub open spec fn wanted_image_count(capabilities: SurfaceCapabilities) -> int {
    let wanted = capabilities.min_image_count + 1;
    if capabilities.max_image_count > 0 && wanted > capabilities.max_image_count {
        capabilities.max_image_count as int
    } else {
        wanted
    }
}

/// Selects the number of images of the swapchain.
pub fn image_count(surface_caps: SurfaceCapabilities) -> (count: u32)
    requires
        surface_caps.min_image_count < u32::MAX,
    ensures
        count == wanted_image_count(surface_caps),
{
    let mut image_count = surface_caps.min_image_count + 1;
    if surface_caps.max_image_count > 0 && image_count > surface_caps.max_image_count {
        image_count = surface_caps.max_image_count;
    }
    image_count
}

/// A swapchain and the resources that exist once for each of its images.
#[derive(Debug, PartialEq, Eq)]
pub struct SwapchainResources {
    /// The handle of the swapchain.
    pub swapchain: u64,
    /// The handles of the semaphores that tell when an image is available.
    pub image_available_semaphores: Vec<u64>,
}

/// The state of presentation.
pub enum SwapchainState {
    /// There is no swapchain, and nothing that belongs to one.
    Uninitialized,
    /// There is a swapchain to acquire images from and to present to.
    Ready { swapchain: u64, image_available: Seq<u64> },
}

/// What is to be done before the next frame can be drawn.
#[derive(Clone, Copy, Debug, PartialEq, Eq, Structural)]
pub enum FramePlan {
    /// There is no swapchain: create one, with its per-image resources.
    Rebuild,
    /// Acquire the next image from this swapchain.
    Acquire(u64),
}

/// How acquiring the next image ended.
#[derive(Clone, Copy, Debug, PartialEq, Eq, Structural)]
pub enum AcquireOutcome {
    /// The image with this index is the next to present.
    Image(u32),
    /// No image became available in the time allowed.
    TimedOut,
    /// The surface no longer matches the swapchain.
    OutOfDate,
    /// The call failed with another status code.
    Failed(i32),
}

/// How presenting an image ended.
#[derive(Clone, Copy, Debug, PartialEq, Eq, Structural)]
pub enum PresentOutcome {
    /// The image is queued for display.
    Presented,
    /// The surface no longer matches the swapchain.
    OutOfDate,
    /// The call failed with another status code.
    Failed(i32),
}

/// How an acquire that ended with `status`, and wrote `index` where it did
/// not fail, ended.
pub open spec fn acquire_outcome(status: i32, index: u32) -> AcquireOutcome {
    if status == STATUS_OUT_OF_DATE {
        AcquireOutcome::OutOfDate
    } else if is_error_status(status) {
        AcquireOutcome::Failed(status)
    } else if status == STATUS_TIMEOUT || status == STATUS_NOT_READY {
        AcquireOutcome::TimedOut
    } else {
        AcquireOutcome::Image(index)
    }
}

/// How a present that ended with `status` ended.
pub open spec fn present_outcome(status: i32) -> PresentOutcome {
    if status == STATUS_OUT_OF_DATE {
        PresentOutcome::OutOfDate
    } else if is_error_status(status) {
        PresentOutcome::Failed(status)
    } else {
        PresentOutcome::Presented
    }
}

impl AcquireOutcome {
    /// Reads the status of an acquire and the index it wrote.
    pub fn from_status(status: i32, index: u32) -> (ended: AcquireOutcome)
        ensures
            ended == acquire_outcome(status, index),
    {
        if status == STATUS_OUT_OF_DATE {
            AcquireOutcome::OutOfDate
        } else if status < 0 {
            AcquireOutcome::Failed(status)
        } else if status == STATUS_TIMEOUT || status == STATUS_NOT_READY {
            AcquireOutcome::TimedOut
        } else {
            AcquireOutcome::Image(index)
        }
    }
}

impl PresentOutcome {
    /// Reads the status of a present.
    pub fn from_status(status: i32) -> (ended: PresentOutcome)
        ensures
            ended == present_outcome(status),
    {
        if status == STATUS_OUT_OF_DATE {
            PresentOutcome::OutOfDate
        } else if status < 0 {
            PresentOutcome::Failed(status)
        } else {
            PresentOutcome::Presented
        }
    }
}

/// What follows from acquiring or presenting.
#[derive(Debug, PartialEq, Eq)]
pub enum Step {
    /// The image with this index was acquired: record and submit the work
    /// that waits for it, then present it.
    Draw(u32),
    /// The image was presented: go on with the next frame.
    Continue,
    /// The swapchain was out of date and is given up: destroy it and all
    /// that belongs to it, then rebuild.
    Retire(SwapchainResources),
}

/// What a [`Step`] says, with the handles as a sequence.
pub enum StepView {
    Draw(u32),
    Continue,
    Retire { swapchain: u64, image_available: Seq<u64> },
}

impl View for Step {
    type V = StepView;

    open spec fn view(&self) -> StepView {
        match *self {
            Step::Draw(index) => StepView::Draw(index),
            Step::Continue => StepView::Continue,
            Step::Retire(resources) => StepView::Retire {
                swapchain: resources.swapchain,
                image_available: resources.image_available_semaphores@,
            },
        }
    }
}

/// A step or an error, both taken by their views.
pub open spec fn step_outcome(result: Result<Step, Error>) -> Result<StepView, ErrorView> {
    match result {
        Ok(step) => Ok(step@),
        Err(error) => Err(error@),
    }
}

/// What is to be done next in a state.
pub open spec fn plan_in(state: SwapchainState) -> FramePlan {
    match state {
        SwapchainState::Uninitialized => FramePlan::Rebuild,
        SwapchainState::Ready { swapchain, .. } => FramePlan::Acquire(swapchain),
    }
}

/// The step that gives up the swapchain of a state.
pub open spec fn retirement(state: SwapchainState) -> StepView
    recommends
        state is Ready,
{
    StepView::Retire {
        swapchain: state->swapchain,
        image_available: state->image_available,
    }
}

/// The state after an acquire that ended with `acquire`: out of date gives
/// up the swapchain, anything else leaves the state as it is.
pub open spec fn after_acquire(state: SwapchainState, acquire: AcquireOutcome) -> SwapchainState {
    match acquire {
        AcquireOutcome::OutOfDate => SwapchainState::Uninitialized,
        _ => state,
    }
}

/// What follows from an acquire that ended with `acquire`. Out of date is
/// no failure; any other error status is one, and an image that does not
/// come in time means that the device is lost.
pub open spec fn acquire_step(state: SwapchainState, acquire: AcquireOutcome) -> Result<
    StepView,
    ErrorView,
> {
    match acquire {
        AcquireOutcome::Image(index) => Ok(StepView::Draw(index)),
        AcquireOutcome::TimedOut => Err(ErrorView::DeviceLost),
        AcquireOutcome::OutOfDate => Ok(retirement(state)),
        AcquireOutcome::Failed(code) => Err(
            ErrorView::NativeApiError(ApiCall::AcquireNextImage, code),
        ),
    }
}

/// The state after a present that ended with `present`.
pub open spec fn after_present(state: SwapchainState, present: PresentOutcome) -> SwapchainState {
    match present {
        PresentOutcome::OutOfDate => SwapchainState::Uninitialized,
        _ => state,
    }
}

/// What follows from a present that ended with `present`.
pub open spec fn present_step(state: SwapchainState, present: PresentOutcome) -> Result<
    StepView,
    ErrorView,
> {
    match present {
        PresentOutcome::Presented => Ok(StepView::Continue),
        PresentOutcome::OutOfDate => Ok(retirement(state)),
        PresentOutcome::Failed(code) => Err(ErrorView::NativeApiError(ApiCall::QueuePresent, code)),
    }
}

/// The state after an attempt to create a swapchain ended with `created`:
/// the new swapchain and its resources, and nothing else; or, where the
/// attempt failed, still no swapchain.
pub open spec fn after_rebuild(created: Result<SwapchainResources, i32>) -> SwapchainState {
    match created {
        Ok(resources) => SwapchainState::Ready {
            swapchain: resources.swapchain,
            image_available: resources.image_available_semaphores@,
        },
        Err(_) => SwapchainState::Uninitialized,
    }
}

/// The handles that a state holds.
pub open spec fn handles(state: SwapchainState) -> Set<u64> {
    match state {
        SwapchainState::Uninitialized => Set::empty(),
        SwapchainState::Ready { swapchain, image_available } => image_available.to_set().insert(
            swapchain,
        ),
    }
}

/// Presentation to a window: the surface, the hardware chosen for it, and
/// the swapchain with its per-image resources while there is one.
#[derive(Debug, PartialEq, Eq)]
pub struct Windowed {
    /// The handle of the swapchain; none before the first is created and
    /// after one was given up.
    pub swapchain: Option<u64>,
    /// The handles of the semaphores that tell when an image is available.
    pub image_available_semaphores: Vec<u64>,
    /// The handle of the surface.
    pub surface: u64,
    /// The hardware chosen for the surface.
    pub hardware: HardwareSelection,
}

impl Windowed {
    /// Without a swapchain there are no per-image resources.
    pub open spec fn wf(&self) -> bool {
        self.swapchain is None ==> self.image_available_semaphores@.len() == 0
    }

    /// The state of presentation.
    pub open spec fn state(&self) -> SwapchainState {
        match self.swapchain {
            None => SwapchainState::Uninitialized,
            Some(swapchain) => SwapchainState::Ready {
                swapchain,
                image_available: self.image_available_semaphores@,
            },
        }
    }

    /// Presentation to a surface for which no swapchain exists yet.
    pub fn new(surface: u64, hardware: HardwareSelection) -> (windowed: Self)
        ensures
            windowed.wf(),
            windowed.state() is Uninitialized,
            windowed.surface == surface,
            windowed.hardware == hardware,
    {
        Windowed { swapchain: None, image_available_semaphores: Vec::new(), surface, hardware }
    }

    /// What is to be done before the next frame can be drawn.
    pub fn plan(&self) -> (plan: FramePlan)
        ensures
            plan == plan_in(self.state()),
    {
        match self.swapchain {
            None => FramePlan::Rebuild,
            Some(swapchain) => FramePlan::Acquire(swapchain),
        }
    }

    /// Gives up the swapchain, if there is one, and hands out what is to be
    /// destroyed.
    pub fn invalidate(&mut self) -> (retired: Option<SwapchainResources>)
        requires
            old(self).wf(),
        ensures
            final(self).wf(),
            final(self).state() is Uninitialized,
            final(self).surface == old(self).surface,
            final(self).hardware == old(self).hardware,
            match old(self).state() {
                SwapchainState::Uninitialized => retired is None,
                SwapchainState::Ready { swapchain, image_available } => retired matches Some(
                    resources,
                ) && resources.swapchain == swapchain && resources.image_available_semaphores@
                    == image_available,
            },
    {
        match self.swapchain.take() {
            None => None,
            Some(swapchain) => {
                let mut image_available_semaphores: Vec<u64> = Vec::new();
                std::mem::swap(
                    &mut image_available_semaphores,
                    &mut self.image_available_semaphores,
                );
                Some(SwapchainResources { swapchain, image_available_semaphores })
            },
        }
    }

    /// Takes in how creating a swapchain ended. There must be no swapchain:
    /// the old one is given up, and destroyed, before a new one is made.
    pub fn rebuilt(&mut self, created: Result<SwapchainResources, i32>) -> (result: Result<
        (),
        Error,
    >)
        requires
            old(self).wf(),
            old(self).state() is Uninitialized,
        ensures
            final(self).wf(),
            final(self).state() == after_rebuild(created),
            final(self).surface == old(self).surface,
            final(self).hardware == old(self).hardware,
            match created {
                Ok(_) => result is Ok,
                Err(code) => outcome(result) == Err::<(), ErrorView>(
                    ErrorView::NativeApiError(ApiCall::CreateSwapchain, code),
                ),
            },
    {
        match created {
            Ok(resources) => {
                self.swapchain = Some(resources.swapchain);
                self.image_available_semaphores = resources.image_available_semaphores;
                Ok(())
            },
            Err(code) => Err(Error::NativeApiError(ApiCall::CreateSwapchain, code)),
        }
    }

    /// Takes in how acquiring the next image ended. There must be a
    /// swapchain: without one, rebuilding comes first.
    pub fn acquired(&mut self, acquire: AcquireOutcome) -> (result: Result<Step, Error>)
        requires
            old(self).wf(),
            old(self).state() is Ready,
        ensures
            final(self).wf(),
            final(self).state() == after_acquire(old(self).state(), acquire),
            final(self).surface == old(self).surface,
            final(self).hardware == old(self).hardware,
            step_outcome(result) == acquire_step(old(self).state(), acquire),
    {
        match acquire {
            AcquireOutcome::Image(index) => Ok(Step::Draw(index)),
            AcquireOutcome::TimedOut => Err(Error::DeviceLost),
            AcquireOutcome::OutOfDate => {
                let retired = self.invalidate();
                Ok(Step::Retire(retired.unwrap()))
            },
            AcquireOutcome::Failed(code) => Err(
                Error::NativeApiError(ApiCall::AcquireNextImage, code),
            ),
        }
    }

    /// Takes in how presenting an image ended. There must be a swapchain.
    pub fn presented(&mut self, present: PresentOutcome) -> (result: Result<Step, Error>)
        requires
            old(self).wf(),
            old(self).state() is Ready,
        ensures
            final(self).wf(),
            final(self).state() == after_present(old(self).state(), present),
            final(self).surface == old(self).surface,
            final(self).hardware == old(self).hardware,
            step_outcome(result) == present_step(old(self).state(), present),
    {
        match present {
            PresentOutcome::Presented => Ok(Step::Continue),
            PresentOutcome::OutOfDate => {
                let retired = self.invalidate();
                Ok(Step::Retire(retired.unwrap()))
            },
            PresentOutcome::Failed(code) => Err(Error::NativeApiError(ApiCall::QueuePresent, code)),
        }
    }
}

/// An out-of-date swapchain is rebuilt before anything is acquired again:
/// after an acquire or a present that was out of date there is no
/// swapchain, what was held is handed out to be destroyed, and the plan is
/// to rebuild; after the rebuild the next image is acquired from the new
/// swapchain.
pub proof fn lemma_out_of_date_rebuilds(state: SwapchainState, fresh: SwapchainResources)
    requires
        state is Ready,
    ensures
        after_acquire(state, AcquireOutcome::OutOfDate) is Uninitialized,
        after_present(state, PresentOutcome::OutOfDate) is Uninitialized,
        acquire_step(state, AcquireOutcome::OutOfDate) == Ok::<StepView, ErrorView>(
            retirement(state),
        ),
        present_step(state, PresentOutcome::OutOfDate) == Ok::<StepView, ErrorView>(
            retirement(state),
        ),
        plan_in(after_acquire(state, AcquireOutcome::OutOfDate)) == FramePlan::Rebuild,
        plan_in(after_present(state, PresentOutcome::OutOfDate)) == FramePlan::Rebuild,
        plan_in(after_rebuild(Ok(fresh))) == FramePlan::Acquire(fresh.swapchain),
{
}

/// Nothing of a swapchain that was given up is used again: after a rebuild
/// the state holds the handles that came with the new swapchain and no
/// others, whatever it held before.
pub proof fn lemma_rebuilt_holds_only_fresh(fresh: SwapchainResources, handle: u64)
    ensures
        handles(after_rebuild(Ok(fresh))).contains(handle) <==> handle == fresh.swapchain
            || fresh.image_available_semaphores@.contains(handle),
{
}

} // verus!
