//! The linked program artifact.

use vstd::prelude::*;

verus! {

/// A fully linked, driver-validated program.
///
/// A value of this type is only ever produced by a successful link: no
/// half-built program is observable.  The owner may read the driver name
/// while the program is alive, and must release it exactly once; after the
/// release the name belongs to the driver again and no other operation may
/// touch it.
#[derive(Debug)]
pub struct Program {
    handle: u32,
    live: bool,
}

impl Program {
    /// The driver name of the linked program object.
    pub closed spec fn id(&self) -> u32 {
        self.handle
    }

    /// Whether the underlying driver object has not been released yet.
    pub closed spec fn alive(&self) -> bool {
        self.live
    }

    /// Wrap the driver name of a program that just linked.
    pub(crate) fn from_linked(handle: u32) -> (p: Program)
        ensures
            p.id() == handle,
            p.alive(),
    {
        Program { handle, live: true }
    }

    /// The driver name, for binding the program to subsequent draw work.
    pub fn handle(&self) -> (r: u32)
        requires
            self.alive(),
        ensures
            r == self.id(),
    {
        self.handle
    }

    /// Whether the program may still be used.
    pub fn is_live(&self) -> (r: bool)
        ensures
            r == self.alive(),
    {
        self.live
    }

    /// Give the driver name back for deletion.  Each program is released
    /// at most once: afterwards the program is no longer alive, and no
    /// operation that needs a live program accepts it.
    pub fn release(&mut self) -> (r: u32)
        requires
            old(self).alive(),
        ensures
            r == old(self).id(),
            !final(self).alive(),
    {
        self.live = false;
        self.handle
    }
}

} // verus!
