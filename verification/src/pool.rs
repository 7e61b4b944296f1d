//! Swap-file pool: the decision taken on every tick, and the sequence of operations
//! that carries a decision out.
//!
//! The pool decides; its caller acts. On every tick the caller hands the pool a memory
//! reading. The pool answers with an action: send a status line, create a file, write
//! zeros, format, enable, disable, remove, wait for the next tick, or halt. The caller
//! carries the action out and reports how it ended, and the pool answers with the next
//! action, until it says to wait.
//!
//! Swap files are numbered densely from one. A file is created at the index after the
//! count of active files and destroyed at the index equal to it.
//!
//! A file that was disabled and could not be deleted is still counted. The pool
//! remembers that it is disabled, and the next tick takes the deletion up again before
//! anything else is decided.

use vstd::prelude::*;
use sysinfo::System;
use crate::activation::ActivationError;
use crate::chunk::{AllocationError, ChunkWriter, WriterAction, WriterStage, WriterState};
use crate::config::{FatalConfigError, SwapConfig};
use crate::event::Event;
use crate::monitor::{sample_memory, snapshot_reading, MemoryReading, MonitorError};
use crate::status::Status;

verus! {

/// What a tick decides.
#[derive(Clone, Copy, Debug, PartialEq, Eq, Structural)]
pub enum TickState {
    /// No swap file is active and none is needed.
    Idle,
    /// Swap files are active and their number stays.
    Holding,
    /// One swap file is to be created.
    Growing,
    /// The newest swap file is to be destroyed.
    Shrinking,
}

/// Why a swap file could not be added.
#[derive(Clone, Copy, Debug, PartialEq, Eq, Structural)]
pub enum GrowError {
    /// The file could not be materialized.
    Allocation(AllocationError),
    /// The file could not be turned into swap; it was removed again.
    Activation(ActivationError),
}

/// How a tick ended.
#[derive(Clone, Copy, Debug, PartialEq, Eq, Structural)]
pub enum TickOutcome {
    /// No swap file is active and none was needed.
    Idle,
    /// The number of swap files stayed.
    Holding,
    /// The reading was not usable; nothing was decided.
    Skipped,
    /// The swap file of this index was created and is active.
    Grew(u8),
    /// The swap file of this index was deactivated and removed.
    Shrank(u8),
    /// The swap file of this index could not be added; the count is unchanged.
    GrowFailed(u8, GrowError),
    /// The swap file of this index could not be destroyed; the count is unchanged.
    ShrinkFailed(u8, ActivationError),
}

/// Why the pool stopped for good.
#[derive(Clone, Copy, Debug, PartialEq, Eq, Structural)]
pub enum FatalError {
    /// The host reports a total of zero for the counter that the decision needs.
    Config(FatalConfigError),
    /// The file of this index was to be created and its path is taken: the files on
    /// disk are not the ones the pool counts.
    IndexCollision(u8),
}

/// What the caller is to do next. Files are named by their index.
#[derive(Clone, Copy, Debug, PartialEq, Eq, Structural)]
pub enum Action {
    /// The tick is over. Wait for the next sampling interval, then tick again.
    Wait(TickOutcome),
    /// Send this status line to the supervisor.
    Notify(Status),
    /// Create the file, failing if its path is taken, readable and writable by its
    /// owner only.
    CreateFile(u8),
    /// Append this many zero bytes to the file.
    WriteZeros(u8, usize),
    /// Delete the file.
    RemoveFile(u8),
    /// Format the file as swap space.
    Format(u8),
    /// Enable the file as swap.
    Enable(u8),
    /// Stop using the file as swap.
    Disable(u8),
    /// Stop the daemon with this error.
    Halt(FatalError),
}

/// Where one swap file stands in its life.
#[derive(Clone, Copy, Debug, PartialEq, Eq, Structural)]
pub enum FileState {
    /// The file is being created and filled.
    Materializing,
    /// The file is complete and not yet active swap.
    Materialized,
    /// The file is active swap.
    Active,
    /// The file is no longer active swap and is to be deleted.
    Deactivating,
    /// The pool holds no file of this index.
    Removed,
}

/// What a tick decides while no swap file is active: only the free share of physical
/// memory counts, and the first file is created while it is below its threshold.
pub open spec fn decide_without_swap(config: SwapConfig, ram_free_pct: u8) -> TickState {
    if ram_free_pct < config.free_ram_threshold_pct {
        TickState::Growing
    } else {
        TickState::Idle
    }
}

/// What a tick decides while `count` swap files are active, `count` being positive.
/// Growth comes first: a file is added while the free share of swap is below the grow
/// threshold and the ceiling is not reached. Otherwise the newest file goes while the
/// free share is above the shrink threshold, more than two files are active and the
/// floor is not reached.
pub open spec fn decide_with_swap(config: SwapConfig, count: nat, swap_free_pct: u8) -> TickState {
    if swap_free_pct < config.free_swap_grow_threshold_pct && count < config.max_count {
        TickState::Growing
    } else if count > 2 && count > config.min_count && swap_free_pct
        > config.free_swap_shrink_threshold_pct {
        TickState::Shrinking
    } else {
        TickState::Holding
    }
}

/// What a tick decides, given both free shares and the count of active swap files.
pub open spec fn decide(
    config: SwapConfig,
    count: nat,
    ram_free_pct: u8,
    swap_free_pct: u8,
) -> TickState {
    if count == 0 {
        decide_without_swap(config, ram_free_pct)
    } else {
        decide_with_swap(config, count, swap_free_pct)
    }
}

/// Where the pool stands within a tick.
pub enum Phase {
    /// Between ticks, with the outcome of the last one.
    Waiting(TickOutcome),
    /// Growth was decided; the status line for it is being sent.
    GrowAnnounced,
    /// The new file is being materialized.
    Materializing(WriterState),
    /// The new file is complete and is being formatted.
    Formatting,
    /// The new file is formatted and is being enabled.
    Enabling,
    /// Formatting or enabling failed; the new file is being removed again.
    RollingBack(ActivationError),
    /// Shrinking was decided; the status line for it is being sent.
    ShrinkAnnounced,
    /// The newest file is being disabled.
    Disabling,
    /// The newest file is disabled and is being removed.
    Removing,
    /// The operation is over; the status line for monitoring is being sent.
    Settling(TickOutcome),
    /// The pool stopped for good.
    Halted(FatalError),
}

/// The pool as a mathematical value.
pub struct PoolState {
    pub config: SwapConfig,
    /// The number of swap files that the pool counts. They have the indices from one
    /// to `count`, and all of them are active swap, but for the newest one where
    /// `top_disabled` holds.
    pub count: nat,
    /// The newest counted file was disabled and is not deleted yet.
    pub top_disabled: bool,
    pub phase: Phase,
}

impl PoolState {
    /// A pool with no swap file, at rest.
    pub open spec fn start(config: SwapConfig) -> PoolState {
        PoolState {
            config,
            count: 0,
            top_disabled: false,
            phase: Phase::Waiting(TickOutcome::Idle),
        }
    }

    /// A swap file is being added.
    pub open spec fn growing(self) -> bool {
        self.phase is GrowAnnounced || self.phase is Materializing || self.phase is Formatting
            || self.phase is Enabling || self.phase is RollingBack
    }

    /// The newest swap file is being destroyed.
    pub open spec fn shrinking(self) -> bool {
        self.phase is ShrinkAnnounced || self.phase is Disabling || self.phase is Removing
    }

    /// The count is within the ceiling, a file is added only below the ceiling, and one
    /// is destroyed only above both the floor and two. While the newest file is
    /// disabled nothing is added, and a file is deleted only once it is disabled.
    pub open spec fn wf(self) -> bool {
        &&& self.config.valid()
        &&& self.count <= self.config.max_count
        &&& self.growing() ==> self.count < self.config.max_count
        &&& self.shrinking() ==> self.count > 2 && self.count > self.config.min_count
        &&& self.top_disabled ==> {
            &&& self.count > 2 && self.count > self.config.min_count
            &&& !self.growing()
            &&& !(self.phase is Disabling)
        }
        &&& self.phase is Removing ==> self.top_disabled
        &&& self.phase matches Phase::Materializing(writer) ==> {
            &&& writer.wf()
            &&& !writer.finished()
            &&& writer.target == self.config.chunk_size
            &&& writer.buffer == self.config.buffer_size
        }
    }

    /// The pool holds at least as many swap files as its floor asks for.
    pub open spec fn warmed(self) -> bool {
        self.config.min_count <= self.count
    }

    /// The index of the file that growth adds.
    pub open spec fn next_index(self) -> u8 {
        (self.count + 1) as u8
    }

    /// The index of the newest active file.
    pub open spec fn top_index(self) -> u8 {
        self.count as u8
    }

    /// Where the swap file of this index stands: the files up to the count are active,
    /// but for the newest one once it is disabled; the one after them is under way
    /// while the pool grows; there are no others.
    pub open spec fn file_state(self, index: nat) -> FileState {
        if 1 <= index < self.count {
            FileState::Active
        } else if index == self.count && 1 <= index {
            if self.top_disabled {
                FileState::Deactivating
            } else {
                FileState::Active
            }
        } else if index == self.count + 1 {
            match self.phase {
                Phase::Materializing(_) => FileState::Materializing,
                Phase::Formatting | Phase::Enabling | Phase::RollingBack(_) => {
                    FileState::Materialized
                },
                _ => FileState::Removed,
            }
        } else {
            FileState::Removed
        }
    }

    /// What the caller is to do in this state.
    pub open spec fn pending(self) -> Action {
        match self.phase {
            Phase::Waiting(outcome) => Action::Wait(outcome),
            Phase::GrowAnnounced => Action::Notify(Status::Allocating),
            Phase::Materializing(writer) => match writer.pending() {
                WriterAction::Create => Action::CreateFile(self.next_index()),
                WriterAction::Write(len) => Action::WriteZeros(self.next_index(), len),
                WriterAction::Discard => Action::RemoveFile(self.next_index()),
                // A well-formed pool keeps no writer that has finished: it moves on at once.
                WriterAction::Finish(_) => Action::Notify(Status::Monitoring),
            },
            Phase::Formatting => Action::Format(self.next_index()),
            Phase::Enabling => Action::Enable(self.next_index()),
            Phase::RollingBack(_) => Action::RemoveFile(self.next_index()),
            Phase::ShrinkAnnounced => Action::Notify(Status::Removing),
            Phase::Disabling => Action::Disable(self.top_index()),
            Phase::Removing => Action::RemoveFile(self.top_index()),
            Phase::Settling(_) => Action::Notify(Status::Monitoring),
            Phase::Halted(error) => Action::Halt(error),
        }
    }

    /// The pool is between ticks.
    pub open spec fn waiting(self) -> bool {
        self.phase is Waiting
    }

    /// The state in which a decision is carried out; the count stays.
    pub open spec fn begin(self, decision: TickState) -> PoolState {
        PoolState {
            phase: match decision {
                TickState::Idle => Phase::Waiting(TickOutcome::Idle),
                TickState::Holding => Phase::Waiting(TickOutcome::Holding),
                TickState::Growing => Phase::GrowAnnounced,
                TickState::Shrinking => Phase::ShrinkAnnounced,
            },
            ..self
        }
    }

    /// The free share that the decision needs: of physical memory while no swap file
    /// is active, of swap otherwise.
    pub open spec fn sample(self, reading: MemoryReading) -> Result<u8, MonitorError> {
        if self.count == 0 {
            reading.spec_ram_free_pct()
        } else {
            reading.spec_swap_free_pct()
        }
    }

    /// The state after a tick with this reading. A pool that is not waiting ignores
    /// the tick. A pool whose newest file is disabled and not deleted yet takes the
    /// deletion up again, whatever the reading. Otherwise the reading decides: a total
    /// of zero halts the pool, a reading that is otherwise unusable skips the tick,
    /// and a percentage is decided on.
    pub open spec fn tick(self, reading: MemoryReading) -> PoolState {
        if !self.waiting() {
            self
        } else if self.top_disabled {
            PoolState { phase: Phase::ShrinkAnnounced, ..self }
        } else {
            match self.sample(reading) {
                Ok(pct) => self.begin(
                    if self.count == 0 {
                        decide_without_swap(self.config, pct)
                    } else {
                        decide_with_swap(self.config, self.count, pct)
                    },
                ),
                Err(MonitorError::Fatal(error)) => PoolState {
                    phase: Phase::Halted(FatalError::Config(error)),
                    ..self
                },
                Err(MonitorError::Unreadable) => PoolState {
                    phase: Phase::Waiting(TickOutcome::Skipped),
                    ..self
                },
            }
        }
    }

    /// The state after a request to fill the pool up to its floor: a waiting pool below
    /// the floor starts to add a file, any other pool stays as it is.
    pub open spec fn prewarm(self) -> PoolState {
        if self.waiting() && !self.warmed() {
            PoolState { phase: Phase::GrowAnnounced, ..self }
        } else {
            self
        }
    }

    /// The state after the pending action ended as `event` says.
    ///
    /// How sending a status line ended does not matter. A file that cannot be formatted
    /// or enabled is removed again. The count goes up when the new file is enabled and
    /// down when the newest file is removed, and not otherwise. The newest file is
    /// disabled once, and deleted however many ticks that takes.
    pub open spec fn next(self, event: Event) -> PoolState {
        match self.phase {
            Phase::Waiting(_) => self,
            Phase::GrowAnnounced => PoolState {
                phase: Phase::Materializing(
                    WriterState::start(
                        self.config.chunk_size as nat,
                        self.config.buffer_size as nat,
                    ),
                ),
                ..self
            },
            Phase::Materializing(writer) => PoolState {
                phase: match writer.next(event).stage {
                    WriterStage::Finished(Ok(())) => Phase::Formatting,
                    WriterStage::Finished(Err(AllocationError::AlreadyExists)) => Phase::Halted(
                        FatalError::IndexCollision(self.next_index()),
                    ),
                    WriterStage::Finished(Err(e)) => Phase::Settling(
                        TickOutcome::GrowFailed(self.next_index(), GrowError::Allocation(e)),
                    ),
                    _ => Phase::Materializing(writer.next(event)),
                },
                ..self
            },
            Phase::Formatting => PoolState {
                phase: match event {
                    Event::Done => Phase::Enabling,
                    Event::Failed(_) => Phase::RollingBack(ActivationError::FormatFailed),
                },
                ..self
            },
            Phase::Enabling => match event {
                Event::Done => PoolState {
                    count: self.count + 1,
                    phase: Phase::Settling(TickOutcome::Grew(self.next_index())),
                    ..self
                },
                Event::Failed(_) => PoolState {
                    phase: Phase::RollingBack(ActivationError::EnableFailed),
                    ..self
                },
            },
            Phase::RollingBack(e) => PoolState {
                phase: Phase::Settling(
                    TickOutcome::GrowFailed(self.next_index(), GrowError::Activation(e)),
                ),
                ..self
            },
            Phase::ShrinkAnnounced => PoolState {
                phase: if self.top_disabled {
                    Phase::Removing
                } else {
                    Phase::Disabling
                },
                ..self
            },
            Phase::Disabling => match event {
                Event::Done => PoolState { top_disabled: true, phase: Phase::Removing, ..self },
                Event::Failed(_) => PoolState {
                    phase: Phase::Settling(
                        TickOutcome::ShrinkFailed(self.top_index(), ActivationError::DisableFailed),
                    ),
                    ..self
                },
            },
            Phase::Removing => match event {
                Event::Done => PoolState {
                    count: (self.count - 1) as nat,
                    top_disabled: false,
                    phase: Phase::Settling(TickOutcome::Shrank(self.top_index())),
                    ..self
                },
                Event::Failed(_) => PoolState {
                    phase: Phase::Settling(
                        TickOutcome::ShrinkFailed(
                            self.top_index(),
                            ActivationError::FileRemovalFailed,
                        ),
                    ),
                    ..self
                },
            },
            Phase::Settling(outcome) => PoolState { phase: Phase::Waiting(outcome), ..self },
            Phase::Halted(_) => self,
        }
    }

    /// The state after one call from the caller.
    pub open spec fn apply(self, input: Input) -> PoolState {
        match input {
            Input::Tick(reading) => self.tick(reading),
            Input::Report(event) => self.next(event),
            Input::Prewarm => self.prewarm(),
        }
    }

    /// The state after a sequence of calls, the first one first.
    pub open spec fn play(self, inputs: Seq<Input>) -> PoolState
        decreases inputs.len(),
    {
        if inputs.len() == 0 {
            self
        } else {
            self.play(inputs.drop_last()).apply(inputs.last())
        }
    }

    /// An upper bound on the number of reports until the pool waits or has halted.
    pub open spec fn steps_left(self) -> nat {
        match self.phase {
            Phase::Waiting(_) => 0,
            Phase::GrowAnnounced => self.config.chunk_size as nat / self.config.buffer_size as nat
                + 11,
            Phase::Materializing(writer) => writer.steps_left() + 6,
            Phase::Formatting => 5,
            Phase::Enabling => 4,
            Phase::RollingBack(_) => 2,
            Phase::ShrinkAnnounced => 4,
            Phase::Disabling => 3,
            Phase::Removing => 2,
            Phase::Settling(_) => 1,
            Phase::Halted(_) => 0,
        }
    }
}

/// One call that the caller makes on the pool.
pub enum Input {
    /// A tick with a memory reading.
    Tick(MemoryReading),
    /// The report on how the pending action ended.
    Report(Event),
    /// The request to fill the pool up to its floor.
    Prewarm,
}

/// Where the pool stands within a tick, as the pool holds it.
#[derive(Clone, Copy, Debug, PartialEq, Eq)]
enum Stage {
    Waiting(TickOutcome),
    GrowAnnounced,
    Materializing(ChunkWriter),
    Formatting,
    Enabling,
    RollingBack(ActivationError),
    ShrinkAnnounced,
    Disabling,
    Removing,
    Settling(TickOutcome),
    Halted(FatalError),
}

impl Stage {
    spec fn phase(self) -> Phase {
        match self {
            Stage::Waiting(outcome) => Phase::Waiting(outcome),
            Stage::GrowAnnounced => Phase::GrowAnnounced,
            Stage::Materializing(writer) => Phase::Materializing(writer@),
            Stage::Formatting => Phase::Formatting,
            Stage::Enabling => Phase::Enabling,
            Stage::RollingBack(e) => Phase::RollingBack(e),
            Stage::ShrinkAnnounced => Phase::ShrinkAnnounced,
            Stage::Disabling => Phase::Disabling,
            Stage::Removing => Phase::Removing,
            Stage::Settling(outcome) => Phase::Settling(outcome),
            Stage::Halted(error) => Phase::Halted(error),
        }
    }
}

/// The pool of swap files: its settings, the number of active files, and where it
/// stands within the current tick.
#[derive(Debug, PartialEq, Eq)]
pub struct SwapFilePool {
    config: SwapConfig,
    count: u8,
    top_disabled: bool,
    stage: Stage,
}

impl View for SwapFilePool {
    type V = PoolState;

    closed spec fn view(&self) -> PoolState {
        PoolState {
            config: self.config,
            count: self.count as nat,
            top_disabled: self.top_disabled,
            phase: self.stage.phase(),
        }
    }
}

impl SwapFilePool {
    #[verifier::type_invariant]
    spec fn inv(self) -> bool {
        self@.wf()
    }

    /// A pool with no swap file, at rest. Settings that are not valid are refused with
    /// the error that `SwapConfig::validate` names.
    pub fn new(config: SwapConfig) -> (made: Result<SwapFilePool, FatalConfigError>)
        ensures
            made is Ok <==> config.valid(),
            made matches Ok(pool) ==> pool@ == PoolState::start(config) && pool@.wf(),
            made matches Err(error) ==> config.checked() == Err::<(), _>(error),
    {
        match config.validate() {
            Ok(()) => Ok(
                SwapFilePool {
                    config,
                    count: 0,
                    top_disabled: false,
                    stage: Stage::Waiting(TickOutcome::Idle),
                },
            ),
            Err(error) => Err(error),
        }
    }

    /// The settings the pool was made with.
    pub fn config(&self) -> (config: SwapConfig)
        ensures
            config == self@.config,
            self@.wf(),
    {
        proof {
            use_type_invariant(self);
        }
        self.config
    }

    /// The number of active swap files.
    pub fn allocated_count(&self) -> (count: u8)
        ensures
            count == self@.count,
            count <= self@.config.max_count,
    {
        proof {
            use_type_invariant(self);
        }
        self.count
    }

    /// Whether the pool is between ticks.
    pub fn is_waiting(&self) -> (waiting: bool)
        ensures
            waiting == self@.waiting(),
    {
        match self.stage {
            Stage::Waiting(_) => true,
            _ => false,
        }
    }

    /// Whether the pool holds at least as many swap files as its floor asks for.
    pub fn is_warmed(&self) -> (warmed: bool)
        ensures
            warmed == self@.warmed(),
    {
        self.config.min_count <= self.count
    }

    /// Whether the pool stopped for good, and why.
    pub fn halted(&self) -> (error: Option<FatalError>)
        ensures
            error == (match self@.phase {
                Phase::Halted(e) => Some(e),
                _ => None,
            }),
    {
        match self.stage {
            Stage::Halted(e) => Some(e),
            _ => None,
        }
    }

    /// Where the swap file of this index stands in its life.
    pub fn file_state(&self, index: u8) -> (state: FileState)
        ensures
            state == self@.file_state(index as nat),
    {
        if index == 0 || index > self.count {
            if self.count < 255 && index == self.count + 1 {
                match self.stage {
                    Stage::Materializing(_) => FileState::Materializing,
                    Stage::Formatting | Stage::Enabling | Stage::RollingBack(_) => {
                        FileState::Materialized
                    },
                    _ => FileState::Removed,
                }
            } else {
                FileState::Removed
            }
        } else if index < self.count || !self.top_disabled {
            FileState::Active
        } else {
            FileState::Deactivating
        }
    }

    /// What the decision rule gives for these free shares and the current count.
    /// Asking changes nothing. A tick follows this rule, unless the newest file is
    /// disabled and still to be deleted: that deletion comes first.
    pub fn decide(&self, ram_free_pct: u8, swap_free_pct: u8) -> (decision: TickState)
        ensures
            decision == decide(self@.config, self@.count, ram_free_pct, swap_free_pct),
    {
        if self.count == 0 {
            decide_ram(&self.config, ram_free_pct)
        } else {
            decide_swap(&self.config, self.count, swap_free_pct)
        }
    }

    /// What the caller is to do next. Asking changes nothing.
    pub fn pending(&self) -> (action: Action)
        ensures
            action == self@.pending(),
            self@.wf(),
    {
        proof {
            use_type_invariant(self);
        }
        match self.stage {
            Stage::Waiting(outcome) => Action::Wait(outcome),
            Stage::GrowAnnounced => Action::Notify(Status::Allocating),
            Stage::Materializing(writer) => match writer.pending() {
                WriterAction::Create => Action::CreateFile(self.count + 1),
                WriterAction::Write(len) => Action::WriteZeros(self.count + 1, len),
                WriterAction::Discard => Action::RemoveFile(self.count + 1),
                // Never reached: the pool keeps no writer that has finished.
                WriterAction::Finish(_) => Action::Notify(Status::Monitoring),
            },
            Stage::Formatting => Action::Format(self.count + 1),
            Stage::Enabling => Action::Enable(self.count + 1),
            Stage::RollingBack(_) => Action::RemoveFile(self.count + 1),
            Stage::ShrinkAnnounced => Action::Notify(Status::Removing),
            Stage::Disabling => Action::Disable(self.count),
            Stage::Removing => Action::RemoveFile(self.count),
            Stage::Settling(_) => Action::Notify(Status::Monitoring),
            Stage::Halted(error) => Action::Halt(error),
        }
    }

    /// Starts a tick with this reading and says what to do first. The decision is taken
    /// from the free share of physical memory while no swap file is active and from the
    /// free share of swap otherwise. A pool that is not waiting ignores the tick, and a
    /// pool whose newest file is disabled and not deleted yet takes the deletion up again.
    pub fn tick(&mut self, reading: MemoryReading) -> (action: Action)
        ensures
            final(self)@ == old(self)@.tick(reading),
            final(self)@.wf(),
            action == final(self)@.pending(),
    {
        proof {
            use_type_invariant(&*self);
        }
        if let Stage::Waiting(_) = self.stage {
            let stage = if self.top_disabled {
                Stage::ShrinkAnnounced
            } else {
                let sample = if self.count == 0 {
                    reading.ram_free_pct()
                } else {
                    reading.swap_free_pct()
                };
                match sample {
                    Ok(pct) => {
                        let decision = if self.count == 0 {
                            decide_ram(&self.config, pct)
                        } else {
                            decide_swap(&self.config, self.count, pct)
                        };
                        match decision {
                            TickState::Idle => Stage::Waiting(TickOutcome::Idle),
                            TickState::Holding => Stage::Waiting(TickOutcome::Holding),
                            TickState::Growing => Stage::GrowAnnounced,
                            TickState::Shrinking => Stage::ShrinkAnnounced,
                        }
                    },
                    Err(MonitorError::Fatal(error)) => Stage::Halted(FatalError::Config(error)),
                    Err(MonitorError::Unreadable) => Stage::Waiting(TickOutcome::Skipped),
                }
            };
            *self = SwapFilePool {
                config: self.config,
                count: self.count,
                top_disabled: self.top_disabled,
                stage,
            };
        }
        self.pending()
    }

    /// Reads the memory counters from a snapshot of the host and starts a tick with
    /// them: the pool ends up as `tick` leaves it for the reading that the snapshot holds.
    pub fn poll(&mut self, snapshot: &System) -> (action: Action)
        ensures
            final(self)@ == old(self)@.tick(snapshot_reading(*snapshot)),
            final(self)@.wf(),
            action == final(self)@.pending(),
    {
        let reading = sample_memory(snapshot);
        self.tick(reading)
    }

    /// Starts to add a swap file if the pool is waiting and below its floor, and says
    /// what to do next.
    pub fn prewarm(&mut self) -> (action: Action)
        ensures
            final(self)@ == old(self)@.prewarm(),
            final(self)@.wf(),
            action == final(self)@.pending(),
    {
        proof {
            use_type_invariant(&*self);
        }
        if let Stage::Waiting(_) = self.stage {
            if self.count < self.config.min_count {
                *self = SwapFilePool {
                    config: self.config,
                    count: self.count,
                    top_disabled: self.top_disabled,
                    stage: Stage::GrowAnnounced,
                };
            }
        }
        self.pending()
    }

    /// Takes note of how the pending action ended and says what to do next.
    pub fn advance(&mut self, event: Event) -> (action: Action)
        ensures
            final(self)@ == old(self)@.next(event),
            final(self)@.wf(),
            action == final(self)@.pending(),
    {
        proof {
            use_type_invariant(&*self);
            lemma_next_wf(self@, event);
        }
        let mut count = self.count;
        let mut top_disabled = self.top_disabled;
        let stage = match self.stage {
            Stage::Waiting(outcome) => Stage::Waiting(outcome),
            Stage::GrowAnnounced => Stage::Materializing(
                ChunkWriter::new(self.config.chunk_size, self.config.buffer_size),
            ),
            Stage::Materializing(writer) => {
                let mut writer = writer;
                match writer.advance(event) {
                    WriterAction::Finish(Ok(())) => Stage::Formatting,
                    WriterAction::Finish(Err(AllocationError::AlreadyExists)) => Stage::Halted(
                        FatalError::IndexCollision(self.count + 1),
                    ),
                    WriterAction::Finish(Err(e)) => Stage::Settling(
                        TickOutcome::GrowFailed(self.count + 1, GrowError::Allocation(e)),
                    ),
                    _ => Stage::Materializing(writer),
                }
            },
            Stage::Formatting => match event {
                Event::Done => Stage::Enabling,
                Event::Failed(_) => Stage::RollingBack(ActivationError::FormatFailed),
            },
            Stage::Enabling => match event {
                Event::Done => {
                    count = self.count + 1;
                    Stage::Settling(TickOutcome::Grew(count))
                },
                Event::Failed(_) => Stage::RollingBack(ActivationError::EnableFailed),
            },
            Stage::RollingBack(e) => Stage::Settling(
                TickOutcome::GrowFailed(self.count + 1, GrowError::Activation(e)),
            ),
            Stage::ShrinkAnnounced => if self.top_disabled {
                Stage::Removing
            } else {
                Stage::Disabling
            },
            Stage::Disabling => match event {
                Event::Done => {
                    top_disabled = true;
                    Stage::Removing
                },
                Event::Failed(_) => Stage::Settling(
                    TickOutcome::ShrinkFailed(self.count, ActivationError::DisableFailed),
                ),
            },
            Stage::Removing => match event {
                Event::Done => {
                    count = self.count - 1;
                    top_disabled = false;
                    Stage::Settling(TickOutcome::Shrank(self.count))
                },
                Event::Failed(_) => Stage::Settling(
                    TickOutcome::ShrinkFailed(self.count, ActivationError::FileRemovalFailed),
                ),
            },
            Stage::Settling(outcome) => Stage::Waiting(outcome),
            Stage::Halted(error) => Stage::Halted(error),
        };
        *self = SwapFilePool { config: self.config, count, top_disabled, stage };
        self.pending()
    }
}

/// Decides for a pool without active swap files.
fn decide_ram(config: &SwapConfig, ram_free_pct: u8) -> (decision: TickState)
    ensures
        decision == decide_without_swap(*config, ram_free_pct),
{
    if ram_free_pct < config.free_ram_threshold_pct {
        TickState::Growing
    } else {
        TickState::Idle
    }
}

/// Decides for a pool with `count` active swap files.
fn decide_swap(config: &SwapConfig, count: u8, swap_free_pct: u8) -> (decision: TickState)
    ensures
        decision == decide_with_swap(*config, count as nat, swap_free_pct),
{
    if swap_free_pct < config.free_swap_grow_threshold_pct && count < config.max_count {
        TickState::Growing
    } else if count > 2 && count > config.min_count && swap_free_pct
        > config.free_swap_shrink_threshold_pct {
        TickState::Shrinking
    } else {
        TickState::Holding
    }
}

/// Every step keeps the pool well-formed.
pub proof fn lemma_next_wf(state: PoolState, event: Event)
    requires
        state.wf(),
    ensures
        state.next(event).wf(),
{
    if let Phase::Materializing(writer) = state.phase {
        crate::chunk::lemma_next_wf(writer, event);
    }
    if state.phase is GrowAnnounced {
        vstd::arithmetic::div_mod::lemma_small_mod(0, state.config.buffer_size as nat);
    }
}

/// Every tick keeps the pool well-formed.
pub proof fn lemma_tick_wf(state: PoolState, reading: MemoryReading)
    requires
        state.wf(),
    ensures
        state.tick(reading).wf(),
{
}

/// Filling up keeps the pool well-formed.
pub proof fn lemma_prewarm_wf(state: PoolState)
    requires
        state.wf(),
    ensures
        state.prewarm().wf(),
{
}

} // verus!
