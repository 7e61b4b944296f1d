//! What holds of the pool whatever the host reports and however operations end.

use vstd::prelude::*;
use crate::config::SwapConfig;
use crate::event::Event;
use crate::monitor::MemoryReading;
use crate::pool::{decide, lemma_next_wf, Action, FileState, Input, Phase, PoolState, TickOutcome,
    TickState};

verus! {

/// Whatever the caller does, in whatever order, the pool stays well-formed: the count
/// never exceeds the ceiling.
pub proof fn lemma_play_wf(state: PoolState, inputs: Seq<Input>)
    requires
        state.wf(),
    ensures
        state.play(inputs).wf(),
        state.play(inputs).count <= state.config.max_count,
        state.play(inputs).config == state.config,
    decreases inputs.len(),
{
    if inputs.len() > 0 {
        lemma_play_wf(state, inputs.drop_last());
        let before = state.play(inputs.drop_last());
        match inputs.last() {
            Input::Report(event) => {
                lemma_next_wf(before, event);
            },
            _ => {},
        }
    }
}

/// One call never takes the count out of the range from the floor to the ceiling.
pub proof fn lemma_apply_keeps_bounds(state: PoolState, input: Input)
    requires
        state.wf(),
        state.warmed(),
    ensures
        state.apply(input).wf(),
        state.apply(input).warmed(),
        state.apply(input).config.min_count <= state.apply(input).count
            <= state.apply(input).config.max_count,
{
    lemma_play_wf(state, seq![input]);
    assert(seq![input].drop_last() =~= Seq::<Input>::empty());
    assert(state.play(seq![input]) == state.play(Seq::<Input>::empty()).apply(input));
}

/// Once the count is within the range from the floor to the ceiling it stays there,
/// after every tick and after every step of every operation, for all valid settings.
pub proof fn lemma_count_stays_in_bounds(state: PoolState, inputs: Seq<Input>)
    requires
        state.wf(),
        state.warmed(),
    ensures
        state.play(inputs).warmed(),
        state.play(inputs).config == state.config,
        state.config.min_count <= state.play(inputs).count <= state.config.max_count,
    decreases inputs.len(),
{
    lemma_play_wf(state, inputs);
    if inputs.len() > 0 {
        lemma_count_stays_in_bounds(state, inputs.drop_last());
        lemma_play_wf(state, inputs.drop_last());
        lemma_apply_keeps_bounds(state.play(inputs.drop_last()), inputs.last());
    }
}

/// A pool that starts empty with a floor of zero is within its bounds from the start.
pub proof fn lemma_start_in_bounds(config: SwapConfig, inputs: Seq<Input>)
    requires
        config.valid(),
        config.min_count == 0,
    ensures
        PoolState::start(config).play(inputs).count <= config.max_count,
{
    lemma_play_wf(PoolState::start(config), inputs);
}

/// How far a pool may be from the count `before` with which its tick began: the count
/// is `before`, or the operation is over and the count is one more with the new file
/// reported, or one less with the removed file reported.
pub open spec fn one_change_from(before: nat, state: PoolState) -> bool {
    let settled = match state.phase {
        Phase::Waiting(outcome) => Some(outcome),
        Phase::Settling(outcome) => Some(outcome),
        _ => None,
    };
    ||| state.count == before
    ||| state.count == before + 1 && settled == Some(TickOutcome::Grew(state.count as u8))
    ||| state.count + 1 == before && settled == Some(TickOutcome::Shrank(before as u8))
}

/// Within one tick at most one swap file is created or destroyed: from a tick, or a
/// request to fill up, until the next one, however many reports come in and whatever
/// they say, the count moves by at most one.
pub proof fn lemma_one_change_per_tick(state: PoolState, first: Input, reports: Seq<Input>)
    requires
        state.wf(),
        !(first is Report),
        forall|i: int| 0 <= i < reports.len() ==> reports[i] is Report,
    ensures
        one_change_from(state.count, state.apply(first).play(reports)),
        state.count - 1 <= state.apply(first).play(reports).count <= state.count + 1,
    decreases reports.len(),
{
    if reports.len() > 0 {
        lemma_one_change_per_tick(state, first, reports.drop_last());
        lemma_play_wf(state, seq![first]);
        assert(seq![first].drop_last() =~= Seq::<Input>::empty());
        lemma_play_wf(state.apply(first), reports.drop_last());
    }
}

/// While no swap file is active, the first one is created only while the free share of
/// physical memory is strictly below its threshold: at the threshold itself, and above
/// it, the pool stays idle, whatever the free share of swap.
pub proof fn lemma_ram_threshold_is_strict(config: SwapConfig, ram_free_pct: u8, swap_free_pct: u8)
    ensures
        decide(config, 0, ram_free_pct, swap_free_pct) == (if ram_free_pct
            < config.free_ram_threshold_pct {
            TickState::Growing
        } else {
            TickState::Idle
        }),
        decide(config, 0, config.free_ram_threshold_pct, swap_free_pct) == TickState::Idle,
{
}

/// A tick of an empty pool whose reading puts the free share of physical memory at the
/// threshold or above leaves the pool waiting, idle, with no file asked for.
pub proof fn lemma_no_growth_at_threshold(state: PoolState, reading: MemoryReading)
    requires
        state.wf(),
        state.waiting(),
        state.count == 0,
        reading.spec_ram_free_pct() matches Ok(pct) && pct >= state.config.free_ram_threshold_pct,
    ensures
        state.tick(reading).phase == Phase::Waiting(TickOutcome::Idle),
        state.tick(reading).count == 0,
        state.tick(reading).pending() == Action::Wait(TickOutcome::Idle),
{
}

/// Shrinking is decided only above both two files and the floor, and growth only below
/// the ceiling.
pub proof fn lemma_decision_respects_limits(
    config: SwapConfig,
    count: nat,
    ram_free_pct: u8,
    swap_free_pct: u8,
)
    requires
        config.valid(),
    ensures
        decide(config, count, ram_free_pct, swap_free_pct) == TickState::Shrinking ==> count > 2
            && count > config.min_count,
        decide(config, count, ram_free_pct, swap_free_pct) == TickState::Growing ==> count
            < config.max_count,
        decide(config, count, ram_free_pct, swap_free_pct) == TickState::Idle <==> count == 0
            && ram_free_pct >= config.free_ram_threshold_pct,
{
}

/// A step that lowers the count lowers it by one, and never below two nor below the
/// floor. A step that raises it raises it by one.
pub proof fn lemma_shrink_respects_floor(state: PoolState, input: Input)
    requires
        state.wf(),
    ensures
        state.apply(input).count < state.count ==> {
            &&& state.apply(input).count == state.count - 1
            &&& state.apply(input).count >= 2
            &&& state.apply(input).count >= state.config.min_count
            &&& state.pending() == Action::RemoveFile(state.count as u8)
        },
        state.apply(input).count > state.count ==> {
            &&& state.apply(input).count == state.count + 1
            &&& state.pending() == Action::Enable(state.apply(input).count as u8)
        },
{
}

/// Every report brings a pool that is neither waiting nor halted closer to the end of
/// its operation, so the caller's loop over one tick stops.
pub proof fn lemma_report_makes_progress(state: PoolState, event: Event)
    requires
        state.wf(),
        !state.waiting(),
        !(state.phase is Halted),
    ensures
        state.next(event).steps_left() < state.steps_left(),
{
    if let Phase::Materializing(writer) = state.phase {
        crate::chunk::lemma_next_makes_progress(writer, event);
    }
}

/// The files that the pool asks to touch are the one after the newest active file,
/// while it grows, and the newest active file, while it shrinks. Every index it names
/// is between one and the ceiling.
pub proof fn lemma_actions_name_the_top(state: PoolState)
    requires
        state.wf(),
    ensures
        match state.pending() {
            Action::CreateFile(k) => state.growing() && k == state.count + 1,
            Action::WriteZeros(k, len) => state.growing() && k == state.count + 1 && 0 < len
                <= state.config.buffer_size,
            Action::Format(k) => state.growing() && k == state.count + 1,
            Action::Enable(k) => state.growing() && k == state.count + 1,
            Action::Disable(k) => state.shrinking() && k == state.count,
            Action::RemoveFile(k) => (state.growing() && k == state.count + 1) || (
            state.shrinking() && k == state.count),
            _ => true,
        },
{
    if let Phase::Materializing(writer) = state.phase {
        if writer.stage is Writing {
            crate::chunk::lemma_write_lengths(writer);
        }
    }
}

/// How far a swap file has come in its life.
pub open spec fn file_rank(state: FileState) -> nat {
    match state {
        FileState::Materializing => 0,
        FileState::Materialized => 1,
        FileState::Active => 2,
        FileState::Deactivating => 3,
        FileState::Removed => 4,
    }
}

/// A swap file only ever moves forward in its life: whatever call comes, the file of
/// an index stays where it is or moves on, or a new file is begun at an index that holds
/// none. In particular a file that was disabled is never counted as active again.
pub proof fn lemma_file_moves_forward(state: PoolState, input: Input, index: nat)
    requires
        state.wf(),
    ensures
        ({
            let before = state.file_state(index);
            let after = state.apply(input).file_state(index);
            ||| file_rank(before) <= file_rank(after)
            ||| before == FileState::Removed && after == FileState::Materializing
        }),
{
}

/// A deletion that failed is taken up again by the next tick, whatever the reading: the
/// pool sends the status line for removing and then asks for the deletion, not for
/// disabling the file a second time. Until the file is deleted it is counted and is
/// reported as no longer active.
pub proof fn lemma_failed_removal_is_retried(
    state: PoolState,
    fault: crate::event::Fault,
    sent: Event,
    reading: MemoryReading,
    announced: Event,
)
    requires
        state.wf(),
        state.phase is Removing,
    ensures
        ({
            let failed = state.next(Event::Failed(fault));
            let waiting = failed.next(sent);
            let retry = waiting.tick(reading);
            &&& failed.count == state.count
            &&& waiting.waiting()
            &&& waiting.file_state(state.count) == FileState::Deactivating
            &&& retry.pending() == Action::Notify(crate::status::Status::Removing)
            &&& retry.next(announced).pending() == Action::RemoveFile(state.count as u8)
            &&& retry.next(announced).next(Event::Done).count == state.count - 1
        }),
{
}

/// A file is disabled only while it is active, and deleted from among the counted files
/// only once it is disabled.
pub proof fn lemma_disable_comes_once(state: PoolState)
    requires
        state.wf(),
    ensures
        state.pending() is Disable ==> state.file_state(state.count) == FileState::Active,
        state.shrinking() && state.pending() is RemoveFile ==> state.file_state(state.count)
            == FileState::Deactivating,
{
}

} // verus!
