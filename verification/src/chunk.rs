//! Chunk allocator: the steps that materialize one zero-filled file of a fixed size.
//!
//! The writer decides; its caller touches the disk. The caller asks for the pending
//! action, carries it out, and reports how it ended. The file is created exclusively,
//! filled by writes of at most one buffer each, and removed again if a write fails.

use vstd::prelude::*;
use vstd::arithmetic::div_mod::{lemma_fundamental_div_mod, lemma_mod_multiples_vanish,
    lemma_small_mod};
use crate::event::{Event, Fault};

verus! {

/// Why a file could not be materialized.
#[derive(Clone, Copy, Debug, PartialEq, Eq, Structural)]
pub enum AllocationError {
    /// The path is taken. Nothing was written and the file that is there was not touched.
    AlreadyExists,
    /// Creating the file failed though the path was free, or a write failed for a reason
    /// other than a full device.
    IoFailure,
    /// The device filled up while the file was written.
    OutOfSpace,
}

/// Where the writer stands.
#[derive(Clone, Copy, Debug, PartialEq, Eq)]
pub enum WriterStage {
    /// The file is to be created.
    Creating,
    /// The file exists and is shorter than its target size.
    Writing,
    /// A write failed; the partial file is to be removed.
    Discarding(AllocationError),
    /// Nothing is left to do.
    Finished(Result<(), AllocationError>),
}

/// What the caller is to do next.
#[derive(Clone, Copy, Debug, PartialEq, Eq)]
pub enum WriterAction {
    /// Create the file, failing if the path is taken, readable and writable by its
    /// owner only.
    Create,
    /// Append this many zero bytes.
    Write(usize),
    /// Remove the partial file.
    Discard,
    /// Stop: the file is complete, or materializing failed.
    Finish(Result<(), AllocationError>),
}

/// The error that a failed creation stands for: a collision where the path is taken,
/// an I/O failure otherwise, a full device included.
pub open spec fn creation_error(fault: Fault) -> AllocationError {
    match fault {
        Fault::AlreadyExists => AllocationError::AlreadyExists,
        _ => AllocationError::IoFailure,
    }
}

/// The error that a failed write stands for: out of space where the device filled up
/// under the write, an I/O failure otherwise. A write never reports a collision.
pub open spec fn write_error(fault: Fault) -> AllocationError {
    match fault {
        Fault::StorageFull => AllocationError::OutOfSpace,
        _ => AllocationError::IoFailure,
    }
}

/// The writer as a mathematical value.
pub struct WriterState {
    /// The size the file is to have.
    pub target: nat,
    /// The most that one write covers.
    pub buffer: nat,
    /// How many bytes the acknowledged writes cover.
    pub written: nat,
    pub stage: WriterStage,
}

impl WriterState {
    /// A writer that has done nothing yet.
    pub open spec fn start(target: nat, buffer: nat) -> WriterState {
        WriterState { target, buffer, written: 0, stage: WriterStage::Creating }
    }

    /// Writes cover whole buffers until the last one, which covers the remainder.
    pub open spec fn wf(self) -> bool {
        &&& 0 < self.buffer
        &&& self.written <= self.target <= usize::MAX
        &&& self.written % self.buffer == 0 || self.written == self.target
        &&& match self.stage {
            WriterStage::Creating => self.written == 0,
            WriterStage::Writing => self.written < self.target,
            WriterStage::Discarding(e) => e != AllocationError::AlreadyExists,
            WriterStage::Finished(Ok(())) => self.written == self.target,
            WriterStage::Finished(Err(_)) => true,
        }
    }

    /// How many bytes the next write covers: a whole buffer, or what is left if that is less.
    pub open spec fn next_len(self) -> nat {
        if self.target - self.written >= self.buffer {
            self.buffer
        } else {
            (self.target - self.written) as nat
        }
    }

    /// What the caller is to do in this state.
    pub open spec fn pending(self) -> WriterAction {
        match self.stage {
            WriterStage::Creating => WriterAction::Create,
            WriterStage::Writing => WriterAction::Write(self.next_len() as usize),
            WriterStage::Discarding(_) => WriterAction::Discard,
            WriterStage::Finished(r) => WriterAction::Finish(r),
        }
    }

    pub open spec fn finished(self) -> bool {
        self.stage is Finished
    }

    /// The state after the pending action ended as `event` says.
    pub open spec fn next(self, event: Event) -> WriterState {
        match self.stage {
            WriterStage::Creating => match event {
                Event::Done => WriterState {
                    stage: if self.target == 0 {
                        WriterStage::Finished(Ok(()))
                    } else {
                        WriterStage::Writing
                    },
                    ..self
                },
                Event::Failed(fault) => WriterState {
                    stage: WriterStage::Finished(Err(creation_error(fault))),
                    ..self
                },
            },
            WriterStage::Writing => match event {
                Event::Done => WriterState {
                    written: self.written + self.next_len(),
                    stage: if self.written + self.next_len() == self.target {
                        WriterStage::Finished(Ok(()))
                    } else {
                        WriterStage::Writing
                    },
                    ..self
                },
                Event::Failed(fault) => WriterState {
                    stage: WriterStage::Discarding(write_error(fault)),
                    ..self
                },
            },
            WriterStage::Discarding(e) => WriterState {
                stage: WriterStage::Finished(Err(e)),
                ..self
            },
            WriterStage::Finished(_) => self,
        }
    }

    /// An upper bound on the number of events until the writer has finished.
    pub open spec fn steps_left(self) -> nat {
        match self.stage {
            WriterStage::Creating => self.target / self.buffer + 4,
            WriterStage::Writing => ((self.target - self.written) / (self.buffer as int)
                + 3) as nat,
            WriterStage::Discarding(_) => 1,
            WriterStage::Finished(_) => 0,
        }
    }
}

/// Materializes one file of `target_size` zero bytes by writes of at most `buffer_size`
/// bytes each.
#[derive(Clone, Copy, Debug, PartialEq, Eq)]
pub struct ChunkWriter {
    target_size: usize,
    buffer_size: usize,
    written: usize,
    stage: WriterStage,
}

impl View for ChunkWriter {
    type V = WriterState;

    closed spec fn view(&self) -> WriterState {
        WriterState {
            target: self.target_size as nat,
            buffer: self.buffer_size as nat,
            written: self.written as nat,
            stage: self.stage,
        }
    }
}

impl ChunkWriter {
    #[verifier::type_invariant]
    spec fn inv(self) -> bool {
        self@.wf()
    }

    /// A writer for a file of `target_size` bytes. Its first action is to create the file.
    pub fn new(target_size: usize, buffer_size: usize) -> (writer: ChunkWriter)
        requires
            buffer_size > 0,
        ensures
            writer@ == WriterState::start(target_size as nat, buffer_size as nat),
            writer@.wf(),
    {
        proof {
            lemma_small_mod(0, buffer_size as nat);
        }
        ChunkWriter { target_size, buffer_size, written: 0, stage: WriterStage::Creating }
    }

    /// How many bytes the acknowledged writes cover.
    pub fn written(&self) -> (n: usize)
        ensures
            n == self@.written,
    {
        self.written
    }

    /// Whether nothing is left to do.
    pub fn is_finished(&self) -> (done: bool)
        ensures
            done == self@.finished(),
    {
        match self.stage {
            WriterStage::Finished(_) => true,
            _ => false,
        }
    }

    /// What the caller is to do next. Asking changes nothing.
    pub fn pending(&self) -> (action: WriterAction)
        ensures
            action == self@.pending(),
            self@.wf(),
    {
        proof {
            use_type_invariant(self);
        }
        match self.stage {
            WriterStage::Creating => WriterAction::Create,
            WriterStage::Writing => {
                let rest = self.target_size - self.written;
                if rest >= self.buffer_size {
                    WriterAction::Write(self.buffer_size)
                } else {
                    WriterAction::Write(rest)
                }
            },
            WriterStage::Discarding(_) => WriterAction::Discard,
            WriterStage::Finished(r) => WriterAction::Finish(r),
        }
    }

    /// Takes note of how the pending action ended and says what to do next.
    pub fn advance(&mut self, event: Event) -> (action: WriterAction)
        ensures
            final(self)@ == old(self)@.next(event),
            final(self)@.wf(),
            action == final(self)@.pending(),
    {
        proof {
            use_type_invariant(&*self);
            lemma_next_wf(self@, event);
        }
        let stage = match self.stage {
            WriterStage::Creating => match event {
                Event::Done => if self.target_size == 0 {
                    WriterStage::Finished(Ok(()))
                } else {
                    WriterStage::Writing
                },
                Event::Failed(fault) => WriterStage::Finished(Err(classify_creation(fault))),
            },
            WriterStage::Writing => match event {
                Event::Done => {
                    let rest = self.target_size - self.written;
                    let len = if rest >= self.buffer_size {
                        self.buffer_size
                    } else {
                        rest
                    };
                    let written = self.written + len;
                    let stage = if written == self.target_size {
                        WriterStage::Finished(Ok(()))
                    } else {
                        WriterStage::Writing
                    };
                    *self = ChunkWriter {
                        target_size: self.target_size,
                        buffer_size: self.buffer_size,
                        written,
                        stage,
                    };
                    return self.pending();
                },
                Event::Failed(fault) => WriterStage::Discarding(classify_write(fault)),
            },
            WriterStage::Discarding(e) => WriterStage::Finished(Err(e)),
            WriterStage::Finished(r) => WriterStage::Finished(r),
        };
        *self = ChunkWriter {
            target_size: self.target_size,
            buffer_size: self.buffer_size,
            written: self.written,
            stage,
        };
        self.pending()
    }
}

/// A block of `len` zero bytes: what the writes of a swap file are taken from. A block
/// of the buffer size serves every write, each taking as many bytes from its start as
/// the write covers.
pub fn zero_block(len: usize) -> (block: Vec<u8>)
    ensures
        block@.len() == len,
        forall|i: int| 0 <= i < len ==> block@[i] == 0,
{
    let mut block: Vec<u8> = Vec::with_capacity(len);
    let mut filled: usize = 0;
    while filled < len
        invariant
            filled <= len,
            block@.len() == filled,
            forall|i: int| 0 <= i < filled ==> block@[i] == 0,
        decreases len - filled,
    {
        block.push(0);
        filled += 1;
    }
    block
}

/// Names the error of a failed creation.
pub fn classify_creation(fault: Fault) -> (error: AllocationError)
    ensures
        error == creation_error(fault),
{
    match fault {
        Fault::AlreadyExists => AllocationError::AlreadyExists,
        _ => AllocationError::IoFailure,
    }
}

/// Names the error of a failed write.
pub fn classify_write(fault: Fault) -> (error: AllocationError)
    ensures
        error == write_error(fault),
{
    match fault {
        Fault::StorageFull => AllocationError::OutOfSpace,
        _ => AllocationError::IoFailure,
    }
}

/// Every step keeps the writer well-formed.
pub proof fn lemma_next_wf(state: WriterState, event: Event)
    requires
        state.wf(),
    ensures
        state.next(event).wf(),
{
    if state.stage is Writing && event is Done {
        if state.target - state.written >= state.buffer {
            lemma_mod_multiples_vanish(1, state.written as int, state.buffer as int);
        }
    }
}

/// While the file is being filled, each write covers a whole buffer, except that the
/// last one covers `target % buffer` bytes where the buffer does not divide the target.
pub proof fn lemma_write_lengths(state: WriterState)
    requires
        state.wf(),
        state.stage is Writing,
    ensures
        0 < state.next_len() <= state.buffer,
        state.written % state.buffer == 0,
        state.target - state.written >= state.buffer ==> state.next_len() == state.buffer,
        state.target - state.written < state.buffer ==> state.next_len() == state.target
            % state.buffer && state.written + state.next_len() == state.target,
{
    if state.target - state.written < state.buffer {
        let b = state.buffer as int;
        let w = state.written as int;
        let t = state.target as int;
        lemma_fundamental_div_mod(w, b);
        lemma_mod_multiples_vanish(w / b, t - w, b);
        lemma_small_mod((t - w) as nat, b as nat);
        assert(b * (w / b) + (t - w) == t);
    }
}

/// Every event brings an unfinished writer closer to its end, so the caller's loop stops.
pub proof fn lemma_next_makes_progress(state: WriterState, event: Event)
    requires
        state.wf(),
        !state.finished(),
    ensures
        state.next(event).steps_left() < state.steps_left(),
{
    let b = state.buffer as int;
    if state.stage is Writing && event is Done {
        let rest = state.target - state.written;
        if rest >= b {
            assert((rest - b) / b < rest / b) by (nonlinear_arith)
                requires
                    0 < b <= rest,
            ;
        }
        assert(0 <= rest / b) by (nonlinear_arith)
            requires
                0 < b,
                0 <= rest,
        ;
    } else if state.stage is Writing {
        let rest = state.target - state.written;
        assert(0 <= rest / b) by (nonlinear_arith)
            requires
                0 < b,
                0 <= rest,
        ;
    } else if state.stage is Creating {
        let t = state.target as int;
        assert(0 <= t / b) by (nonlinear_arith)
            requires
                0 < b,
                0 <= t,
        ;
    }
}

/// How one action of the writer changes the file at its path, as a file system behaves.
/// `file` is the file before the action: `None` where the path is free, else its length.
///
/// Creation is exclusive: it succeeds only on a free path and leaves an empty file, and it
/// fails with `AlreadyExists` exactly where the path is taken. A write that succeeds
/// appends all its bytes; one that fails may have appended some. Removal that
/// succeeds frees the path. A failed creation or removal changes nothing.
pub open spec fn file_step(
    file: Option<nat>,
    action: WriterAction,
    event: Event,
    after: Option<nat>,
) -> bool {
    match action {
        WriterAction::Create => match event {
            Event::Done => file is None && after == Some(0nat),
            Event::Failed(fault) => after == file && (fault == Fault::AlreadyExists
                <==> file is Some),
        },
        WriterAction::Write(len) => match event {
            Event::Done => file is Some ==> after == Some((file.unwrap() + len) as nat),
            Event::Failed(_) => file is Some ==> after is Some,
        },
        WriterAction::Discard => match event {
            Event::Done => after is None,
            Event::Failed(_) => after == file,
        },
        WriterAction::Finish(_) => after == file,
    }
}

/// What the file at the writer's path looks like in each state of the writer, where
/// `initial` is what was at the path before the writer started.
///
/// While the file is filled its length is the writer's count. A writer that finished
/// with success left a file of exactly the target size. One that was refused because
/// the path was taken left what was there. One that failed otherwise left nothing.
pub open spec fn file_matches(initial: Option<nat>, state: WriterState, file: Option<nat>) -> bool {
    match state.stage {
        WriterStage::Creating => file == initial,
        WriterStage::Writing => file == Some(state.written),
        WriterStage::Discarding(_) => file is Some,
        WriterStage::Finished(Ok(())) => file == Some(state.target),
        WriterStage::Finished(Err(AllocationError::AlreadyExists)) => initial is Some && file
            == initial && state.written == 0,
        WriterStage::Finished(Err(_)) => file is None,
    }
}

/// The file follows the writer: if the file is as `file_matches` says before an action,
/// it is so again after it, however the action ended, unless removing a partial
/// file failed. In particular a file that was materialized has exactly the target
/// size, for every target size and every positive buffer size.
pub proof fn lemma_file_follows_writer(
    initial: Option<nat>,
    state: WriterState,
    file: Option<nat>,
    event: Event,
    after: Option<nat>,
)
    requires
        state.wf(),
        file_matches(initial, state, file),
        file_step(file, state.pending(), event, after),
        !(state.stage is Discarding && event is Failed),
    ensures
        file_matches(initial, state.next(event), after),
{
}

/// Materializing onto a path that is taken is refused with `AlreadyExists` at the first
/// step: no write is asked for and the file that is there keeps its length.
pub proof fn lemma_taken_path_is_refused(
    target: nat,
    buffer: nat,
    file: Option<nat>,
    event: Event,
    after: Option<nat>,
)
    requires
        file is Some,
        file_step(file, WriterState::start(target, buffer).pending(), event, after),
    ensures
        WriterState::start(target, buffer).next(event).stage == WriterStage::Finished(
            Err(AllocationError::AlreadyExists),
        ),
        WriterState::start(target, buffer).next(event).written == 0,
        after == file,
{
}

/// A failed write is never the end: the next action removes the partial file, and the
/// writer then finishes with the error of that write. The count of written bytes stays.
pub proof fn lemma_failed_write_is_discarded(state: WriterState, fault: Fault, removal: Event)
    requires
        state.wf(),
        state.stage is Writing,
    ensures
        state.next(Event::Failed(fault)).pending() == WriterAction::Discard,
        state.next(Event::Failed(fault)).next(removal).stage == WriterStage::Finished(
            Err(write_error(fault)),
        ),
        write_error(fault) != AllocationError::AlreadyExists,
        state.next(Event::Failed(fault)).next(removal).written == state.written,
{
}

} // verus!
