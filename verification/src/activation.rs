//! Swap activator: the errors of turning a file into live swap and back.

use vstd::prelude::*;

verus! {

/// Which step of activating or deactivating a swap file failed.
#[derive(Clone, Copy, Debug, PartialEq, Eq, Structural)]
pub enum ActivationError {
    /// The file could not be formatted as swap space.
    FormatFailed,
    /// The formatted file could not be enabled as swap.
    EnableFailed,
    /// The system could not stop using the file as swap.
    DisableFailed,
    /// The file could not be deleted.
    FileRemovalFailed,
}

} // verus!
