use crate::error::{outcome, Error, ErrorView};
use vstd::multiset::Multiset;
use vstd::prelude::*;

verus! {

/// What tells one memory block from another: the native memory object it
/// lies in and where in it the block begins.
#[derive(Clone, Copy, Debug, PartialEq, Eq, Structural)]
pub struct BlockId {
    /// The handle of the native memory object.
    pub memory: u64,
    /// The offset of the block in the memory object, in bytes.
    pub offset: u64,
}

/// A block of device memory that the allocator handed out. It has one owner
/// until it is handed back.
#[derive(Debug, PartialEq, Eq)]
pub struct Memory {
    /// The handle of the native memory object.
    pub memory: u64,
    /// The offset of the block in the memory object, in bytes.
    pub offset: u64,
    /// The size of the block, in bytes.
    pub size: u64,
}

impl Memory {
    /// The id of the block.
    pub open spec fn spec_id(&self) -> BlockId {
        BlockId { memory: self.memory, offset: self.offset }
    }

    /// The id of the block.
    #[verifier::when_used_as_spec(spec_id)]
    pub fn id(&self) -> (id: BlockId)
        ensures
            id == self.spec_id(),
    {
        BlockId { memory: self.memory, offset: self.offset }
    }
}

/// How an attempt to take the lock around the allocator ended.
#[derive(Clone, Copy, Debug, PartialEq, Eq, Structural)]
pub enum LockOutcome {
    /// The lock was taken, and is released again.
    Acquired,
    /// The lock is poisoned: a holder panicked.
    Poisoned,
}

/// Why the allocator could not serve a request.
#[derive(Clone, Copy, Debug, PartialEq, Eq, Structural)]
pub enum AllocationFailure {
    /// The device memory is exhausted.
    OutOfDeviceMemory,
    /// The host memory is exhausted.
    OutOfHostMemory,
    /// No memory type that the request allows fits its usage.
    NoCompatibleMemoryTypes,
    /// The limit on the number of memory objects is reached.
    TooManyObjects,
}

/// How an allocation ended: the lock was taken for the one call and released
/// after it.
#[derive(Debug, PartialEq, Eq)]
pub enum AllocOutcome {
    /// The lock is poisoned; the allocator was not called.
    Poisoned,
    /// The allocator could not serve the request.
    Failed(AllocationFailure),
    /// The allocator handed out a block.
    Block(Memory),
}

/// The allocator as the session sees it: the blocks that were handed out and
/// have not come back.
#[derive(Debug)]
pub struct Allocator {
    live: Vec<BlockId>,
}

impl View for Allocator {
    type V = Multiset<BlockId>;

    closed spec fn view(&self) -> Multiset<BlockId> {
        self.live@.to_multiset()
    }
}

impl Allocator {
    /// An allocator that has handed out nothing.
    pub fn new() -> (allocator: Self)
        ensures
            allocator@ == Multiset::<BlockId>::empty(),
    {
        let allocator = Allocator { live: Vec::new() };
        proof {
            allocator.live@.to_multiset_ensures();
            assert(allocator.live@.to_multiset().len() == 0);
            assert(allocator@ =~= Multiset::<BlockId>::empty());
        }
        allocator
    }

    /// How many blocks are out.
    pub fn live_blocks(&self) -> (count: usize)
        ensures
            count == self@.len(),
    {
        proof {
            self.live@.to_multiset_ensures();
        }
        self.live.len()
    }

    /// Whether the block with this id is out.
    pub fn owns(&self, id: BlockId) -> (out: bool)
        ensures
            out == self@.contains(id),
    {
        self.position(id).is_some()
    }

    /// Where in the record a block with this id stands, if it is out.
    fn position(&self, id: BlockId) -> (place: Option<usize>)
        ensures
            place is Some <==> self@.contains(id),
            place matches Some(index) ==> index < self.live.len() && self.live[index as int] == id,
    {
        let mut i: usize = 0;
        while i < self.live.len()
            invariant
                i <= self.live.len(),
                forall|j: int| 0 <= j < i ==> self.live@[j] != id,
            decreases self.live.len() - i,
        {
            let entry = self.live[i];
            if entry.memory == id.memory && entry.offset == id.offset {
                proof {
                    self.live@.to_multiset_ensures();
                    assert(self.live@[i as int] == id);
                    assert(self.live@.contains(id));
                }
                return Some(i);
            }
            i += 1;
        }
        proof {
            self.live@.to_multiset_ensures();
            assert(!self.live@.contains(id));
        }
        None
    }

    /// Records that a block went out.
    fn record(&mut self, id: BlockId)
        ensures
            final(self)@ == old(self)@.insert(id),
    {
        proof {
            self.live@.to_multiset_ensures();
        }
        self.live.push(id);
    }

    /// Records that a block came back.
    fn strike(&mut self, id: BlockId)
        requires
            old(self)@.contains(id),
        ensures
            final(self)@ == old(self)@.remove(id),
    {
        proof {
            self.live@.to_multiset_ensures();
        }
        match self.position(id) {
            Some(index) => {
                self.live.remove(index);
            },
            None => {},
        }
    }
}

/// The blocks that are out after an allocation that ended with `outcome`.
pub open spec fn after_allocate(out: Multiset<BlockId>, outcome: AllocOutcome) -> Multiset<
    BlockId,
> {
    match outcome {
        AllocOutcome::Block(block) => out.insert(block.id()),
        _ => out,
    }
}

/// What an allocation that ended with `outcome` hands to its caller.
pub open spec fn allocation_result(outcome: AllocOutcome) -> Result<Memory, ErrorView> {
    match outcome {
        AllocOutcome::Poisoned => Err(ErrorView::AllocatorUnavailable),
        AllocOutcome::Failed(_) => Err(ErrorView::AllocationFailed),
        AllocOutcome::Block(block) => Ok(block),
    }
}

/// The blocks that are out after the block `id` was to be handed back and
/// the lock was asked for with the result `lock`.
pub open spec fn after_deallocate(out: Multiset<BlockId>, id: BlockId, lock: LockOutcome) -> Multiset<
    BlockId,
> {
    match lock {
        LockOutcome::Acquired => out.remove(id),
        LockOutcome::Poisoned => out,
    }
}

/// What handing a block back hands to its caller.
pub open spec fn deallocation_result(lock: LockOutcome) -> Result<(), ErrorView> {
    match lock {
        LockOutcome::Acquired => Ok(()),
        LockOutcome::Poisoned => Err(ErrorView::AllocatorUnavailable),
    }
}

/// Round trip: a block that is allocated and handed back at once leaves the
/// record of the blocks that are out as it was, and the block can be handed
/// back, whatever was out before.
pub proof fn lemma_allocate_then_deallocate(out: Multiset<BlockId>, block: Memory)
    ensures
        after_allocate(out, AllocOutcome::Block(block)).contains(block.id()),
        after_deallocate(
            after_allocate(out, AllocOutcome::Block(block)),
            block.id(),
            LockOutcome::Acquired,
        ) == out,
{
    assert(out.insert(block.id()).remove(block.id()) =~= out);
}

/// The resources that every component of a session refers to: the two
/// queues and the allocator.
#[derive(Debug)]
pub struct Core {
    /// The handle of the queue for compute and transfer.
    pub utility_queue: u64,
    /// The handle of the queue for graphics and presentation.
    pub graphics_queue: u64,
    /// The allocator, as the session sees it.
    pub allocator: Allocator,
}

impl Core {
    /// Gives access to the allocator where the lock around it could be taken.
    pub fn allocator(&self, lock: LockOutcome) -> (result: Result<&Allocator, Error>)
        ensures
            match lock {
                LockOutcome::Acquired => result == Ok::<&Allocator, Error>(&self.allocator),
                LockOutcome::Poisoned => result == Err::<&Allocator, Error>(
                    Error::AllocatorUnavailable,
                ),
            },
    {
        match lock {
            LockOutcome::Acquired => Ok(&self.allocator),
            LockOutcome::Poisoned => Err(Error::AllocatorUnavailable),
        }
    }

    /// Takes in how an allocation ended. A block that the allocator handed
    /// out is recorded and passed on; a poisoned lock and a failed
    /// allocation become their errors and change nothing.
    pub fn allocate(&mut self, allocation: AllocOutcome) -> (result: Result<Memory, Error>)
        ensures
            outcome(result) == allocation_result(allocation),
            final(self).allocator@ == after_allocate(old(self).allocator@, allocation),
            final(self).utility_queue == old(self).utility_queue,
            final(self).graphics_queue == old(self).graphics_queue,
    {
        match allocation {
            AllocOutcome::Poisoned => Err(Error::AllocatorUnavailable),
            AllocOutcome::Failed(_) => Err(Error::AllocationFailed),
            AllocOutcome::Block(block) => {
                self.allocator.record(block.id());
                Ok(block)
            },
        }
    }

    /// Takes a block back. Where the lock could be taken the block is struck
    /// from the record; where the lock is poisoned the block stays out.
    ///
    /// The block must be out: a block is handed back once.
    pub fn deallocate(&mut self, memory: Memory, lock: LockOutcome) -> (result: Result<(), Error>)
        requires
            old(self).allocator@.contains(memory.id()),
        ensures
            outcome(result) == deallocation_result(lock),
            final(self).allocator@ == after_deallocate(old(self).allocator@, memory.id(), lock),
            final(self).utility_queue == old(self).utility_queue,
            final(self).graphics_queue == old(self).graphics_queue,
    {
        match lock {
            LockOutcome::Acquired => {
                self.allocator.strike(memory.id());
                Ok(())
            },
            LockOutcome::Poisoned => Err(Error::AllocatorUnavailable),
        }
    }
}

} // verus!
