//! What the caller reports back after it has carried out an operation.

use vstd::prelude::*;

verus! {

/// Why an operation on the file system or on the swap subsystem failed, as far as the
/// pool tells failures apart.
#[derive(Clone, Copy, Debug, PartialEq, Eq, Structural)]
pub enum Fault {
    /// A file was to be created and its path is taken.
    AlreadyExists,
    /// The device is full.
    StorageFull,
    /// Anything else: permission denied, a quota used up, a command that exits with an
    /// error.
    Other,
}

/// How the operation that was asked for last ended.
#[derive(Clone, Copy, Debug, PartialEq, Eq, Structural)]
pub enum Event {
    /// It was carried out.
    Done,
    /// It failed.
    Failed(Fault),
}

} // verus!
