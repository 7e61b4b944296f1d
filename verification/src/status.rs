//! The status lines that the pool reports to the service supervisor.

use vstd::prelude::*;

verus! {

/// What the pool is doing, as the supervisor shows it.
#[derive(Clone, Copy, Debug, PartialEq, Eq, Structural)]
pub enum Status {
    /// A swap file is being created.
    Allocating,
    /// The pool watches memory and is otherwise at rest.
    Monitoring,
    /// A swap file is being destroyed.
    Removing,
}

impl Status {
    /// The status line, character by character.
    pub open spec fn text(self) -> Seq<char> {
        match self {
            Status::Allocating => "Allocating swap file..."@,
            Status::Monitoring => "Monitoring memory status..."@,
            Status::Removing => "Removing swap file..."@,
        }
    }

    /// The status line to send.
    pub fn message(self) -> (line: &'static str)
        ensures
            line@ == self.text(),
    {
        match self {
            Status::Allocating => "Allocating swap file...",
            Status::Monitoring => "Monitoring memory status...",
            Status::Removing => "Removing swap file...",
        }
    }
}

} // verus!
