//! Memory modules and their state.

use crate::error::{is_success, Error};
use crate::native::{MemoryHandle, MemoryStateReply};
use vstd::prelude::*;

verus! {

/// How much memory a module has and how much of it is free, in bytes.
#[derive(Clone, Copy, Debug, PartialEq, Eq, Structural)]
pub struct MemoryState {
    pub total: u64,
    pub free: u64,
}

impl MemoryState {
    /// Whether the state is consistent: no more memory free than there is.
    pub open spec fn well_formed(&self) -> bool {
        self.free <= self.total
    }

    /// The number of bytes in use.
    pub fn used(&self) -> (used: u64)
        requires
            self.well_formed(),
        ensures
            used == self.total - self.free,
    {
        self.total - self.free
    }
}

/// One memory module known to the native library.
#[derive(Clone, Copy, Debug, PartialEq, Eq, Structural)]
pub struct MemoryModule {
    /// The native reference to the module.
    pub memory_module_handle: MemoryHandle,
}

/// The outcome of a memory state query with the given reply: the state where
/// the call succeeded, its status code as an error where it did not.
pub open spec fn memory_state_outcome(reply: MemoryStateReply) -> Result<MemoryState, Error> {
    if is_success(reply.result) {
        Ok(MemoryState { total: reply.size, free: reply.free })
    } else {
        Err(Error(reply.result))
    }
}

impl MemoryStateReply {
    /// Reads the reply of a memory state query: its error where the call
    /// failed, and otherwise the state it reports.
    pub fn into_state(self) -> (out: Result<MemoryState, Error>)
        ensures
            out == memory_state_outcome(self),
    {
        match Error::from_result(self.result) {
            Ok(()) => Ok(MemoryState { total: self.size, free: self.free }),
            Err(error) => Err(error),
        }
    }
}

impl MemoryModule {
    /// Reads the current state of the memory module.
    pub fn memory_state<F: Fn(MemoryHandle) -> MemoryStateReply>(&self, native: &F) -> (out:
        Result<MemoryState, Error>)
        requires
            native.requires((self.memory_module_handle,)),
        ensures
            exists|reply: MemoryStateReply|
                #[trigger] native.ensures((self.memory_module_handle,), reply) && out
                    == memory_state_outcome(reply),
    {
        let reply = native(self.memory_module_handle);
        reply.into_state()
    }
}

} // verus!
