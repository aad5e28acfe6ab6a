//! What a trap dispatcher tells the kernel about a page fault, whatever the
//! architecture.

use vstd::prelude::*;

verus! {

/// The access that raised a page fault, as a set of flags.
#[derive(Clone, Copy, Debug, PartialEq, Eq, Structural)]
pub struct PageFaultFlags {
    /// The faulting access read memory.
    pub read: bool,
    /// The faulting access wrote memory.
    pub write: bool,
    /// The faulting access fetched an instruction.
    pub execute: bool,
    /// The faulting access came from user mode.
    pub user: bool,
}

impl PageFaultFlags {
    /// The set that holds `READ` alone.
    pub open spec fn spec_read() -> Self {
        PageFaultFlags { read: true, write: false, execute: false, user: false }
    }

    /// The set that holds `WRITE` alone.
    pub open spec fn spec_write() -> Self {
        PageFaultFlags { read: false, write: true, execute: false, user: false }
    }

    /// The set that holds `EXECUTE` alone.
    pub open spec fn spec_execute() -> Self {
        PageFaultFlags { read: false, write: false, execute: true, user: false }
    }

    /// This set with `USER` added when `is_user` holds, and unchanged otherwise.
    pub open spec fn spec_with_user(self, is_user: bool) -> Self {
        PageFaultFlags { user: self.user || is_user, ..self }
    }

    /// A read access.
    #[verifier::when_used_as_spec(spec_read)]
    pub fn read() -> (flags: Self)
        ensures
            flags == Self::spec_read(),
    {
        PageFaultFlags { read: true, write: false, execute: false, user: false }
    }

    /// A write access.
    #[verifier::when_used_as_spec(spec_write)]
    pub fn write() -> (flags: Self)
        ensures
            flags == Self::spec_write(),
    {
        PageFaultFlags { read: false, write: true, execute: false, user: false }
    }

    /// An instruction fetch.
    #[verifier::when_used_as_spec(spec_execute)]
    pub fn execute() -> (flags: Self)
        ensures
            flags == Self::spec_execute(),
    {
        PageFaultFlags { read: false, write: false, execute: true, user: false }
    }

    /// Adds `USER` to the set when the access came from user mode.
    #[verifier::when_used_as_spec(spec_with_user)]
    pub fn with_user(self, is_user: bool) -> (flags: Self)
        ensures
            flags == self.spec_with_user(is_user),
    {
        PageFaultFlags {
            read: self.read,
            write: self.write,
            execute: self.execute,
            user: self.user || is_user,
        }
    }
}

} // verus!
