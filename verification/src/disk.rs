//! The swap files on disk, as the pool's actions leave them.
//!
//! The pool never touches the disk itself. This module states how a file system
//! answers the pool's actions and proves that, on such a file system, the files on disk
//! are at every moment the ones the pool counts: densely numbered from one, each of
//! exactly the configured size, with at most one further file under way.

use vstd::prelude::*;
use crate::chunk::{file_matches, file_step, lemma_file_follows_writer, WriterAction};
use crate::event::Event;
use crate::pool::{Action, Input, Phase, PoolState};

verus! {

/// The file of this index on a disk that maps the index of every file to its length:
/// `None` where there is none.
pub open spec fn file_at(disk: Map<nat, nat>, index: nat) -> Option<nat> {
    if disk.dom().contains(index) {
        Some(disk[index])
    } else {
        None
    }
}

/// All files but the one of this index are on `after` what they are on `disk`.
pub open spec fn same_except(disk: Map<nat, nat>, after: Map<nat, nat>, index: nat) -> bool {
    forall|j: nat| j != index ==> #[trigger] file_at(after, j) == file_at(disk, j)
}

/// How one action of the pool changes the disk, as a file system behaves: creating,
/// writing and removing act on the one file they name as `file_step` says, and nothing
/// else changes any file.
pub open spec fn disk_step(
    disk: Map<nat, nat>,
    action: Action,
    event: Event,
    after: Map<nat, nat>,
) -> bool {
    match action {
        Action::CreateFile(k) => file_step(
            file_at(disk, k as nat),
            WriterAction::Create,
            event,
            file_at(after, k as nat),
        ) && same_except(disk, after, k as nat),
        Action::WriteZeros(k, len) => file_step(
            file_at(disk, k as nat),
            WriterAction::Write(len),
            event,
            file_at(after, k as nat),
        ) && same_except(disk, after, k as nat),
        Action::RemoveFile(k) => file_step(
            file_at(disk, k as nat),
            WriterAction::Discard,
            event,
            file_at(after, k as nat),
        ) && same_except(disk, after, k as nat),
        _ => forall|j: nat| #[trigger] file_at(after, j) == file_at(disk, j),
    }
}

/// What the file after the newest active one looks like while the pool is in this state:
/// under way as the writer says, complete while it is formatted and enabled, absent otherwise.
pub open spec fn new_file_fits(state: PoolState, file: Option<nat>) -> bool {
    match state.phase {
        Phase::Materializing(writer) => file_matches(None, writer, file),
        Phase::Formatting | Phase::Enabling | Phase::RollingBack(_) => file == Some(
            state.config.chunk_size as nat,
        ),
        _ => file is None,
    }
}

/// What the file of this index looks like while the pool is in this state.
pub open spec fn file_fits(state: PoolState, index: nat, file: Option<nat>) -> bool {
    if 1 <= index <= state.count {
        file == Some(state.config.chunk_size as nat)
    } else if index == state.count + 1 {
        new_file_fits(state, file)
    } else {
        file is None
    }
}

/// The disk holds what the pool counts: a file of the configured size at every index from
/// one to the count, the file under way at the next index, and nothing else.
pub open spec fn disk_matches(state: PoolState, disk: Map<nat, nat>) -> bool {
    forall|k: nat| file_fits(state, k, #[trigger] file_at(disk, k))
}

/// The pool is removing a file that it created in this tick and could not complete.
pub open spec fn cleaning_up(state: PoolState) -> bool {
    state.growing() && state.pending() is RemoveFile
}

/// One step of pool and disk together: a report comes with the change that its action
/// made on disk, and a tick or a request to fill up leaves the disk alone. A clean-up
/// that fails is not such a step: the file it was to remove stays although the pool
/// does not count it.
pub open spec fn joint_step(
    state: PoolState,
    disk: Map<nat, nat>,
    input: Input,
    after: Map<nat, nat>,
) -> bool {
    match input {
        Input::Report(event) => disk_step(disk, state.pending(), event, after) && !(cleaning_up(
            state,
        ) && event is Failed),
        _ => forall|j: nat| #[trigger] file_at(after, j) == file_at(disk, j),
    }
}

/// A history of pool and disk: `disks` holds the disk before the first call and after
/// every call, and each call is a joint step.
pub open spec fn joint_history(
    state: PoolState,
    inputs: Seq<Input>,
    disks: Seq<Map<nat, nat>>,
) -> bool {
    &&& disks.len() == inputs.len() + 1
    &&& forall|i: int|
        0 <= i < inputs.len() ==> joint_step(
            state.play(inputs.take(i)),
            disks[i],
            #[trigger] inputs[i],
            disks[i + 1],
        )
}

/// One joint step keeps the disk in line with the pool.
pub proof fn lemma_disk_follows_pool(
    state: PoolState,
    disk: Map<nat, nat>,
    input: Input,
    after: Map<nat, nat>,
)
    requires
        state.wf(),
        disk_matches(state, disk),
        joint_step(state, disk, input, after),
    ensures
        disk_matches(state.apply(input), after),
{
    let then = state.apply(input);
    let new = (state.count + 1) as nat;
    assert forall|k: nat| file_fits(then, k, #[trigger] file_at(after, k)) by {
        assert(file_fits(state, k, file_at(disk, k)));
        assert(file_fits(state, new, file_at(disk, new)));
        assert(file_fits(state, state.count, file_at(disk, state.count)));
        match input {
            Input::Report(event) => {
                if let Phase::Materializing(writer) = state.phase {
                    lemma_file_follows_writer(
                        None,
                        writer,
                        file_at(disk, new),
                        event,
                        file_at(after, new),
                    );
                }
            },
            _ => {},
        }
    }
}

/// The files on disk are always the ones the pool counts, for every sequence of ticks,
/// requests to fill up and reports in which no clean-up fails: if the disk matches the
/// pool at the start of a history, it matches it at the end.
pub proof fn lemma_disk_always_matches(
    state: PoolState,
    inputs: Seq<Input>,
    disks: Seq<Map<nat, nat>>,
)
    requires
        state.wf(),
        joint_history(state, inputs, disks),
        disk_matches(state, disks[0]),
    ensures
        disk_matches(state.play(inputs), disks.last()),
    decreases inputs.len(),
{
    if inputs.len() > 0 {
        let n = inputs.len() - 1;
        let shorter = inputs.drop_last();
        let earlier = disks.drop_last();
        assert forall|i: int| 0 <= i < shorter.len() implies joint_step(
            state.play(shorter.take(i)),
            earlier[i],
            #[trigger] shorter[i],
            earlier[i + 1],
        ) by {
            assert(shorter.take(i) =~= inputs.take(i));
            assert(joint_step(state.play(inputs.take(i)), disks[i], inputs[i], disks[i + 1]));
        }
        lemma_disk_always_matches(state, shorter, earlier);
        crate::laws::lemma_play_wf(state, shorter);
        assert(inputs.take(n) =~= shorter);
        assert(joint_step(state.play(inputs.take(n)), disks[n], inputs[n], disks[n + 1]));
        lemma_disk_follows_pool(state.play(shorter), disks[n], inputs.last(), disks.last());
    }
}

/// Between ticks the indices on disk are exactly those from one to the count, without a
/// gap, and every file has exactly the configured size.
pub proof fn lemma_waiting_disk_is_dense(state: PoolState, disk: Map<nat, nat>)
    requires
        disk_matches(state, disk),
        state.waiting(),
    ensures
        forall|k: nat| #[trigger] disk.dom().contains(k) <==> (1 <= k <= state.count),
        forall|k: nat|
            1 <= k <= state.count ==> #[trigger] disk[k] == state.config.chunk_size as nat,
{
    assert forall|k: nat| #[trigger] disk.dom().contains(k) <==> (1 <= k <= state.count) by {
        assert(file_fits(state, k, file_at(disk, k)));
    }
    assert forall|k: nat| 1 <= k <= state.count implies #[trigger] disk[k]
        == state.config.chunk_size as nat by {
        assert(file_fits(state, k, file_at(disk, k)));
    }
}

/// A file that the pool asks to remove is on disk and has the highest index of all files
/// on disk: files leave in the reverse order of their creation.
pub proof fn lemma_removal_takes_highest(state: PoolState, disk: Map<nat, nat>, index: u8)
    requires
        state.wf(),
        disk_matches(state, disk),
        state.pending() == Action::RemoveFile(index),
    ensures
        disk.dom().contains(index as nat),
        forall|j: nat| disk.dom().contains(j) ==> j <= index,
{
    assert(file_fits(state, index as nat, file_at(disk, index as nat)));
    assert forall|j: nat| disk.dom().contains(j) implies j <= index by {
        assert(file_fits(state, j, file_at(disk, j)));
    }
}

/// A file that the pool asks to create gets the index after the highest one on disk, and
/// its path is free: while the disk matches the pool, creation never fails because the
/// path is taken, so the pool never halts on a collision.
pub proof fn lemma_creation_never_collides(
    state: PoolState,
    disk: Map<nat, nat>,
    event: Event,
    after: Map<nat, nat>,
    index: u8,
)
    requires
        state.wf(),
        disk_matches(state, disk),
        state.pending() == Action::CreateFile(index),
        disk_step(disk, state.pending(), event, after),
    ensures
        index == state.count + 1,
        !disk.dom().contains(index as nat),
        forall|j: nat| disk.dom().contains(j) ==> j < index,
        !(state.next(event).phase is Halted),
{
    assert(file_fits(state, index as nat, file_at(disk, index as nat)));
    assert forall|j: nat| disk.dom().contains(j) implies j < index by {
        assert(file_fits(state, j, file_at(disk, j)));
    }
}

/// Where the path of the new file is taken, the pool halts at once with a collision on
/// that index: nothing is written, nothing is removed, and the count stays.
pub proof fn lemma_collision_halts(
    state: PoolState,
    disk: Map<nat, nat>,
    event: Event,
    after: Map<nat, nat>,
    index: u8,
)
    requires
        state.wf(),
        state.pending() == Action::CreateFile(index),
        disk.dom().contains(index as nat),
        disk_step(disk, state.pending(), event, after),
    ensures
        state.next(event).phase == Phase::Halted(crate::pool::FatalError::IndexCollision(index)),
        state.next(event).count == state.count,
        file_at(after, index as nat) == file_at(disk, index as nat),
{
}

/// A write that fails is followed by the removal of the partial file, and when that
/// removal is done the pool reports the failure, with the count as it was and the
/// new file's index free again.
pub proof fn lemma_failed_write_is_rolled_back(
    state: PoolState,
    disk: Map<nat, nat>,
    fault: crate::event::Fault,
    mid: Map<nat, nat>,
    after: Map<nat, nat>,
    index: u8,
    len: usize,
)
    requires
        state.wf(),
        disk_matches(state, disk),
        state.pending() == Action::WriteZeros(index, len),
        disk_step(disk, state.pending(), Event::Failed(fault), mid),
        disk_step(mid, Action::RemoveFile(index), Event::Done, after),
    ensures
        state.next(Event::Failed(fault)).pending() == Action::RemoveFile(index),
        state.next(Event::Failed(fault)).next(Event::Done).phase == Phase::Settling(
            crate::pool::TickOutcome::GrowFailed(
                index,
                crate::pool::GrowError::Allocation(crate::chunk::write_error(fault)),
            ),
        ),
        state.next(Event::Failed(fault)).next(Event::Done).count == state.count,
        disk_matches(state.next(Event::Failed(fault)).next(Event::Done), after),
{
    let failed = state.next(Event::Failed(fault));
    crate::pool::lemma_next_wf(state, Event::Failed(fault));
    lemma_disk_follows_pool(state, disk, Input::Report(Event::Failed(fault)), mid);
    lemma_disk_follows_pool(failed, mid, Input::Report(Event::Done), after);
}

} // verus!
