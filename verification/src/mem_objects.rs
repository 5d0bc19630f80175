use crate::error::{ApiCall, Error};
use crate::memory::{memory_request, request_from_usage_requirements, MemoryRequirements, Request};
use crate::session::Memory;
use drop_bomb::DropBomb;
use vstd::prelude::*;

verus! {

/// A kind of resource that is looked at through a view of its own.
pub trait Viewable {
    /// The type of the view.
    type View;
}

/// `drop_bomb::DropBomb`, a guard that panics when it is dropped armed.
/// Nothing inside it is visible here.
#[verifier::external_type_specification]
#[verifier::external_body]
pub struct ExDropBomb(drop_bomb::DropBomb);

/// Whether a bomb is defused, as `drop_bomb::DropBomb::is_defused` would
/// tell: a bomb that is not defused panics when it is dropped.
pub uninterp spec fn bomb_defused(bomb: DropBomb) -> bool;

/// Arms a bomb with `drop_bomb::DropBomb::new`.
///
/// Trusted: the new bomb is not defused.
#[verifier::external_body]
fn arm_bomb(message: &'static str) -> (bomb: DropBomb)
    ensures
        !bomb_defused(bomb),
{
    DropBomb::new(message)
}

/// Defuses a bomb with `drop_bomb::DropBomb::defuse`.
///
/// Trusted: the bomb is defused afterwards.
#[verifier::external_body]
fn defuse_bomb(bomb: &mut DropBomb)
    ensures
        bomb_defused(*final(bomb)),
{
    bomb.defuse()
}

/// Asks a bomb with `drop_bomb::DropBomb::is_defused`.
///
/// Trusted: the answer is whether the bomb is defused.
#[verifier::external_body]
fn bomb_is_defused(bomb: &DropBomb) -> (defused: bool)
    ensures
        defused == bomb_defused(*bomb),
{
    bomb.is_defused()
}

/// The kinds of native resource that memory is bound to.
#[derive(Clone, Copy, Debug, PartialEq, Eq, Structural)]
pub enum ResourceKind {
    /// An image.
    Image,
    /// A buffer.
    Buffer,
}

/// What the bomb of a memory object of no stated kind says when it goes off.
pub const DROPPED_WITHOUT_FREE: &'static str = "Memory object dropped without calling free()!";

/// What the bomb of an image says when it goes off.
pub const IMAGE_DROPPED_WITHOUT_FREE: &'static str =
    "Image memory object dropped without calling free()!";

/// What the bomb of a buffer says when it goes off.
pub const BUFFER_DROPPED_WITHOUT_FREE: &'static str =
    "Buffer memory object dropped without calling free()!";

/// What the bomb of a memory object is armed with: the message names the
/// kind of the object that was dropped without `free`.
pub open spec fn leak_message(kind: Option<ResourceKind>) -> &'static str {
    match kind {
        Some(ResourceKind::Image) => IMAGE_DROPPED_WITHOUT_FREE,
        Some(ResourceKind::Buffer) => BUFFER_DROPPED_WITHOUT_FREE,
        None => DROPPED_WITHOUT_FREE,
    }
}

/// Chooses the message that the bomb of a memory object is armed with.
pub fn message_for(kind: Option<ResourceKind>) -> (message: &'static str)
    ensures
        message == leak_message(kind),
{
    match kind {
        Some(ResourceKind::Image) => IMAGE_DROPPED_WITHOUT_FREE,
        Some(ResourceKind::Buffer) => BUFFER_DROPPED_WITHOUT_FREE,
        None => DROPPED_WITHOUT_FREE,
    }
}

/// An image or a buffer together with the memory bound to it.
///
/// The memory is there from construction until `free`, which is called
/// once. An object that is dropped before `free` takes the process down.
#[derive(Debug)]
pub struct MemObject<T> {
    /// The handle of the native resource.
    pub instance: T,
    kind: Option<ResourceKind>,
    memory: Option<Memory>,
    bomb: DropBomb,
}

impl<T> MemObject<T> {
    /// The object still has its memory: `free` has not been called.
    pub closed spec fn is_live(&self) -> bool {
        self.memory is Some
    }

    /// The memory block of a live object.
    pub closed spec fn block(&self) -> Memory
        recommends
            self.is_live(),
    {
        self.memory->0
    }

    /// The handle of the native resource.
    pub closed spec fn spec_resource(&self) -> &T {
        &self.instance
    }

    /// The handle of the native resource.
    #[verifier::when_used_as_spec(spec_resource)]
    pub fn resource(&self) -> (handle: &T)
        ensures
            handle == self.spec_resource(),
    {
        &self.instance
    }

    /// Dropping the object now would take the process down.
    pub closed spec fn is_armed(&self) -> bool {
        !bomb_defused(self.bomb)
    }

    /// Whether dropping the object now would take the process down.
    pub fn armed(&self) -> (armed: bool)
        ensures
            armed == self.is_armed(),
    {
        !bomb_is_defused(&self.bomb)
    }

    /// The kind of the native resource, where the object was made with one.
    pub closed spec fn spec_kind(&self) -> Option<ResourceKind> {
        self.kind
    }

    /// The kind of the native resource, where the object was made with one.
    #[verifier::when_used_as_spec(spec_kind)]
    pub fn kind(&self) -> (kind: Option<ResourceKind>)
        ensures
            kind == self.spec_kind(),
    {
        self.kind
    }

    /// Puts a resource and the memory bound to it under one owner. The
    /// object is armed with the message for no stated kind.
    pub fn new(instance: T, memory: Memory) -> (object: Self)
        ensures
            object.is_live(),
            object.is_armed(),
            object.kind() is None,
            *object.resource() == instance,
            object.block() == memory,
    {
        MemObject { instance, kind: None, memory: Some(memory), bomb: arm_bomb(message_for(None)) }
    }

    /// Puts a resource of a stated kind and the memory bound to it under
    /// one owner. The object is armed with the message for its kind.
    pub fn of_kind(kind: ResourceKind, instance: T, memory: Memory) -> (object: Self)
        ensures
            object.is_live(),
            object.is_armed(),
            object.kind() == Some(kind),
            *object.resource() == instance,
            object.block() == memory,
    {
        MemObject {
            instance,
            kind: Some(kind),
            memory: Some(memory),
            bomb: arm_bomb(message_for(Some(kind))),
        }
    }

    /// Whether `free` has been called.
    pub fn is_freed(&self) -> (freed: bool)
        ensures
            freed == !self.is_live(),
    {
        self.memory.is_none()
    }

    /// The memory block of the object.
    pub fn memory(&self) -> (block: &Memory)
        requires
            self.is_live(),
        ensures
            *block == self.block(),
    {
        self.memory.as_ref().unwrap()
    }

    /// The memory block of the object, for changing it in place.
    pub fn memory_mut(&mut self) -> (block: &mut Memory)
        requires
            old(self).is_live(),
        ensures
            *block == old(self).block(),
            final(self).is_live(),
            final(self).block() == *final(block),
            final(self).is_armed() == old(self).is_armed(),
            final(self).kind() == old(self).kind(),
            final(self).resource() == old(self).resource(),
    {
        self.memory.as_mut().unwrap()
    }

    /// Gives up the memory of the object and disarms it. The caller destroys
    /// the native resource and hands the block that is returned back to the
    /// allocator.
    ///
    /// Only a live object can be freed: a second call is a programming error.
    pub fn free(&mut self) -> (block: Memory)
        requires
            old(self).is_live(),
        ensures
            block == old(self).block(),
            !final(self).is_live(),
            !final(self).is_armed(),
            final(self).kind() == old(self).kind(),
            final(self).resource() == old(self).resource(),
    {
        let block = self.memory.take().unwrap();
        defuse_bomb(&mut self.bomb);
        block
    }
}

/// Why the creation of a memory object was given up, and what is left for
/// the caller to clean up: nothing that was made along the way is lost.
#[derive(Debug)]
pub struct Abort<T> {
    /// Why the creation was given up.
    pub error: Error,
    /// The native resource to destroy, if one was created.
    pub destroy: Option<T>,
    /// The block to hand back to the allocator, if one was allocated.
    pub release: Option<Memory>,
}

/// The first step of a creation is done: the native resource exists, with
/// no memory bound to it.
#[derive(Debug)]
pub struct Created<T> {
    /// The kind of the native resource.
    pub kind: ResourceKind,
    /// The handle of the native resource.
    pub instance: T,
    /// What the memory is meant for: usage bits.
    pub usage: u8,
}

/// The third step of a creation is done: a block is allocated for the
/// resource, and not yet bound to it.
#[derive(Debug)]
pub struct Backed<T> {
    /// The kind of the native resource.
    pub kind: ResourceKind,
    /// The handle of the native resource.
    pub instance: T,
    /// The block to bind to the resource.
    pub memory: Memory,
}

impl<T> MemObject<T> {
    /// Starts the creation of a memory object of a kind with the result of
    /// creating the native resource. Where that failed there is nothing to
    /// clean up.
    pub fn create(kind: ResourceKind, resource: Result<T, i32>, usage: u8) -> (result: Result<
        Created<T>,
        Abort<T>,
    >)
        ensures
            match resource {
                Ok(instance) => result matches Ok(created) && created.kind == kind
                    && created.instance == instance && created.usage == usage,
                Err(code) => result matches Err(abort) && abort.error == Error::NativeApiError(
                    ApiCall::CreateResource,
                    code,
                ) && abort.destroy is None && abort.release is None,
            },
    {
        match resource {
            Ok(instance) => Ok(Created { kind, instance, usage }),
            Err(code) => Err(
                Abort {
                    error: Error::NativeApiError(ApiCall::CreateResource, code),
                    destroy: None,
                    release: None,
                },
            ),
        }
    }
}

impl<T> Created<T> {
    /// The second step: the request to the allocator, from what the device
    /// requires for the resource.
    pub fn request(&self, requirements: MemoryRequirements) -> (request: Request)
        ensures
            request == memory_request(requirements, self.usage),
    {
        request_from_usage_requirements(requirements, self.usage)
    }

    /// The third step: takes in the result of the allocation. Where it
    /// failed, the resource is to be destroyed before the error goes on.
    pub fn allocated(self, allocation: Result<Memory, Error>) -> (result: Result<
        Backed<T>,
        Abort<T>,
    >)
        ensures
            match allocation {
                Ok(block) => result matches Ok(backed) && backed.kind == self.kind
                    && backed.instance == self.instance && backed.memory == block,
                Err(error) => result matches Err(abort) && abort.error == error && abort.destroy
                    == Some(self.instance) && abort.release is None,
            },
    {
        match allocation {
            Ok(memory) => Ok(Backed { kind: self.kind, instance: self.instance, memory }),
            Err(error) => Err(Abort { error, destroy: Some(self.instance), release: None }),
        }
    }
}

impl<T> Backed<T> {
    /// Where to bind: the native memory object and the offset in it.
    pub fn binding(&self) -> (target: (u64, u64))
        ensures
            target == (self.memory.memory, self.memory.offset),
    {
        (self.memory.memory, self.memory.offset)
    }

    /// The fourth step: takes in the result of binding the block to the
    /// resource. Where it failed, the resource is to be destroyed and the
    /// block to be handed back.
    pub fn bound(self, bind: Result<(), i32>) -> (result: Result<MemObject<T>, Abort<T>>)
        ensures
            match bind {
                Ok(_) => result matches Ok(object) && object.is_live() && object.is_armed()
                    && object.kind() == Some(self.kind) && *object.resource() == self.instance
                    && object.block() == self.memory,
                Err(code) => result matches Err(abort) && abort.error == Error::NativeApiError(
                    ApiCall::BindMemory,
                    code,
                ) && abort.destroy == Some(self.instance) && abort.release == Some(self.memory),
            },
    {
        match bind {
            Ok(_) => Ok(MemObject::of_kind(self.kind, self.instance, self.memory)),
            Err(code) => Err(
                Abort {
                    error: Error::NativeApiError(ApiCall::BindMemory, code),
                    destroy: Some(self.instance),
                    release: Some(self.memory),
                },
            ),
        }
    }
}

} // verus!
