//! The structural violations that stop the linker.

use vstd::prelude::*;

verus! {

/// A violated structural assumption. On the target each of these ends in a
/// debug trap; none is recoverable.
#[derive(Clone, Copy, Debug, PartialEq, Eq, Structural)]
pub enum Fatal {
    /// A table or a fixup target reaches outside the module's memory.
    OutOfImage,
    /// The dynamic table announces an entry size other than the one this
    /// linker lays its records out with.
    EntrySizeMismatch,
    /// The dynamic table names a call-site relocation encoding that is
    /// neither of the two known ones.
    UnknownRelocationEncoding,
    /// Two call sites of one module do not start out at the same stub.
    StubMismatch,
    /// A code region does not carry a module header.
    InvalidModule,
    /// More base-relative entries are announced than the relocation table
    /// holds.
    TableOverrun,
    /// A handle names no module of the linker.
    UnknownModule,
}

} // verus!
