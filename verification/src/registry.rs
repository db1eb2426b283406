//! The registry of tracked processes: which handle names which process.
//!
//! The registry mints the handles itself, counting up from
//! [`FIRST_HANDLE`]. A handle is never the operating system's identifier of
//! the process, and it is never given out twice: not while its process is
//! tracked, and not after that process has left.
//!
//! The registry owns the processes it tracks. It is a plain value: where
//! several flows of control share one, its owner guards it with a lock and
//! holds the lock for one call at a time.

use std::collections::HashMap;
use vstd::prelude::*;
use crate::event::ProcessHandle;

verus! {

broadcast use vstd::std_specs::hash::group_hash_axioms;

/// The first handle that a registry gives out. No handle is ever below it.
pub const FIRST_HANDLE: ProcessHandle = 1;

/// The bound of all handles: every handle is below it. A registry whose next
/// handle has reached it gives out no more.
pub const HANDLE_LIMIT: ProcessHandle = 0x7fff_ffff;

/// The entries of a registry agree with its count of handles: the count is
/// between the first handle and the limit, and every handle in use was
/// given out before, so that it lies below the next one.
pub open spec fn well_numbered<P>(entries: Map<ProcessHandle, P>, next: ProcessHandle) -> bool {
    &&& FIRST_HANDLE <= next <= HANDLE_LIMIT
    &&& forall|handle: ProcessHandle| #[trigger]
        entries.contains_key(handle) ==> FIRST_HANDLE <= handle < next
}

/// Maps each handle in use to the process it names. `P` is the resource that
/// stands for a live process; the registry never looks inside it.
pub struct ProcessRegistry<P> {
    entries: HashMap<ProcessHandle, P>,
    next: ProcessHandle,
}

impl<P> View for ProcessRegistry<P> {
    type V = Map<ProcessHandle, P>;

    closed spec fn view(&self) -> Map<ProcessHandle, P> {
        self.entries@
    }
}

impl<P> ProcessRegistry<P> {
    #[verifier::type_invariant]
    pub(crate) open spec fn numbered(self) -> bool {
        well_numbered(self@, self.next_handle())
    }

    /// The handle that the next registration will give out, or
    /// [`HANDLE_LIMIT`] when none is left.
    pub closed spec fn next_handle(&self) -> ProcessHandle {
        self.next
    }

    /// A registry that tracks nothing and has given out no handle.
    pub fn new() -> (registry: ProcessRegistry<P>)
        ensures
            registry@ == Map::<ProcessHandle, P>::empty(),
            registry.next_handle() == FIRST_HANDLE,
    {
        ProcessRegistry { entries: HashMap::new(), next: FIRST_HANDLE }
    }

    /// A registry that tracks nothing and will give out `first` as its first
    /// handle, or [`FIRST_HANDLE`] where `first` is below that.
    pub fn starting_at(first: ProcessHandle) -> (registry: ProcessRegistry<P>)
        ensures
            registry@ == Map::<ProcessHandle, P>::empty(),
            registry.next_handle() == if first < FIRST_HANDLE {
                FIRST_HANDLE
            } else {
                first
            },
    {
        let next = if first < FIRST_HANDLE {
            FIRST_HANDLE
        } else {
            first
        };
        ProcessRegistry { entries: HashMap::new(), next }
    }

    /// Tracks `process` under a handle of its own, which no process has had
    /// before, and returns that handle. Where no handle is left, nothing
    /// changes and the process is handed back.
    pub fn register(&mut self, process: P) -> (outcome: Result<ProcessHandle, P>)
        ensures
            well_numbered(old(self)@, old(self).next_handle()),
            well_numbered(final(self)@, final(self).next_handle()),
            match outcome {
                Ok(handle) => {
                    &&& old(self).next_handle() < HANDLE_LIMIT
                    &&& handle == old(self).next_handle()
                    &&& !old(self)@.contains_key(handle)
                    &&& final(self)@ == old(self)@.insert(handle, process)
                    &&& final(self).next_handle() == handle + 1
                },
                Err(returned) => {
                    &&& old(self).next_handle() == HANDLE_LIMIT
                    &&& returned == process
                    &&& final(self)@ == old(self)@
                    &&& final(self).next_handle() == old(self).next_handle()
                },
            },
    {
        proof {
            use_type_invariant(&*self);
        }
        if self.next >= HANDLE_LIMIT {
            return Err(process);
        }
        let handle = self.next;
        let mut entries: HashMap<ProcessHandle, P> = HashMap::new();
        core::mem::swap(&mut entries, &mut self.entries);
        entries.insert(handle, process);
        self.next = handle + 1;
        self.entries = entries;
        Ok(handle)
    }

    /// Stops tracking `handle` and hands back the process it named, if any.
    /// The handle is not given out again.
    pub fn remove(&mut self, handle: ProcessHandle) -> (removed: Option<P>)
        ensures
            well_numbered(final(self)@, final(self).next_handle()),
            final(self)@ == old(self)@.remove(handle),
            final(self).next_handle() == old(self).next_handle(),
            !final(self)@.contains_key(handle),
            removed == if old(self)@.contains_key(handle) {
                Some(old(self)@[handle])
            } else {
                None
            },
    {
        proof {
            use_type_invariant(&*self);
        }
        let mut entries: HashMap<ProcessHandle, P> = HashMap::new();
        core::mem::swap(&mut entries, &mut self.entries);
        let removed = entries.remove(&handle);
        self.entries = entries;
        removed
    }

    /// Tells whether a process is tracked under `handle`. None is under a
    /// handle that was never given out.
    pub fn contains(&self, handle: ProcessHandle) -> (present: bool)
        ensures
            well_numbered(self@, self.next_handle()),
            present == self@.contains_key(handle),
            present ==> FIRST_HANDLE <= handle < self.next_handle(),
    {
        proof {
            use_type_invariant(self);
        }
        self.entries.contains_key(&handle)
    }

    /// The number of tracked processes.
    pub fn len(&self) -> (n: usize)
        ensures
            self@.dom().finite(),
            n == self@.len(),
    {
        self.entries.len()
    }

    /// Tells whether nothing is tracked.
    pub fn is_empty(&self) -> (empty: bool)
        ensures
            empty == (self@ == Map::<ProcessHandle, P>::empty()),
    {
        let empty = self.entries.is_empty();
        proof {
            if empty {
                assert(self@ =~= Map::<ProcessHandle, P>::empty());
            }
        }
        empty
    }
}

/// The handle that is given out next names no process of the registry, and
/// named none at any earlier moment: every handle in use, and every handle
/// given out before, lies below it. So no handle is given out twice.
pub proof fn lemma_new_handle_is_fresh<P>(entries: Map<ProcessHandle, P>, next: ProcessHandle)
    requires
        well_numbered(entries, next),
    ensures
        !entries.contains_key(next),
        forall|handle: ProcessHandle| #[trigger]
            entries.contains_key(handle) ==> handle < next,
{
}

/// Registering and removing keep the registry well numbered, and the count
/// of handles never goes back.
pub proof fn lemma_numbering_is_kept<P>(
    entries: Map<ProcessHandle, P>,
    next: ProcessHandle,
    handle: ProcessHandle,
    process: P,
)
    requires
        well_numbered(entries, next),
    ensures
        well_numbered(entries.remove(handle), next),
        next < HANDLE_LIMIT ==> well_numbered(entries.insert(next, process), (next + 1) as i32),
{
}

} // verus!
