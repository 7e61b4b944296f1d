//! Memory monitor: how much of physical memory and of swap is free, in percent.

use vstd::prelude::*;
use sysinfo::{System, SystemExt};
use crate::config::FatalConfigError;

verus! {

/// Why a reading yields no percentage.
#[derive(Clone, Copy, Debug, PartialEq, Eq, Structural)]
pub enum SampleError {
    /// The total is zero, so the ratio is undefined.
    ZeroTotal,
    /// More is reported free than exists in total: the reading is not usable.
    FreeExceedsTotal,
}

/// Why the monitor yields no percentage.
#[derive(Clone, Copy, Debug, PartialEq, Eq, Structural)]
pub enum MonitorError {
    /// The host reports a total of zero: swap cannot be managed on it.
    Fatal(FatalConfigError),
    /// The counters contradict each other. The next reading may be usable.
    Unreadable,
}

/// One reading of the host's memory counters. The unit is whatever the host reports;
/// only ratios are taken.
#[derive(Clone, Copy, Debug, PartialEq, Eq, Structural)]
pub struct MemoryReading {
    /// All physical memory.
    pub total_memory: u64,
    /// The physical memory that nothing uses.
    pub free_memory: u64,
    /// All swap space.
    pub total_swap: u64,
    /// The swap space that nothing uses.
    pub free_swap: u64,
}

/// The share of `total` that is `free`, in whole percent, rounded down; an error where
/// that is no percentage.
pub open spec fn percent_free(free: nat, total: nat) -> Result<u8, SampleError> {
    if total == 0 {
        Err(SampleError::ZeroTotal)
    } else if free > total {
        Err(SampleError::FreeExceedsTotal)
    } else {
        Ok((free * 100 / total) as u8)
    }
}

/// A percentage that `percent_free` yields is at most one hundred.
pub proof fn lemma_percent_free_in_range(free: nat, total: nat)
    ensures
        percent_free(free, total) matches Ok(pct) ==> pct == free * 100 / total && pct <= 100,
        percent_free(free, total) matches Ok(pct) ==> (pct == 100 <==> free == total),
{
    if 0 < total && free <= total {
        assert(free * 100 / total <= 100 && (free * 100 / total == 100 <==> free == total))
            by (nonlinear_arith)
            requires
                0 < total,
                free <= total,
        ;
    }
}

/// Computes `floor(free * 100 / total)`. Fails with `ZeroTotal` exactly when `total` is
/// zero, and with `FreeExceedsTotal` exactly when `total` is positive and below `free`.
pub fn free_percentage(free: u64, total: u64) -> (pct: Result<u8, SampleError>)
    ensures
        pct == percent_free(free as nat, total as nat),
        pct matches Ok(p) ==> p <= 100,
{
    proof {
        lemma_percent_free_in_range(free as nat, total as nat);
    }
    if total == 0 {
        Err(SampleError::ZeroTotal)
    } else if free > total {
        Err(SampleError::FreeExceedsTotal)
    } else {
        let scaled: u128 = (free as u128) * 100;
        let pct: u128 = scaled / (total as u128);
        Ok(pct as u8)
    }
}

/// What the monitor reports for a counter pair: the percentage, a fatal error naming
/// `zero_total` where the total is zero, or an unreadable sample where more is free than
/// there is in total.
pub open spec fn monitored(free: nat, total: nat, zero_total: FatalConfigError) -> Result<
    u8,
    MonitorError,
> {
    match percent_free(free, total) {
        Ok(pct) => Ok(pct),
        Err(SampleError::ZeroTotal) => Err(MonitorError::Fatal(zero_total)),
        Err(SampleError::FreeExceedsTotal) => Err(MonitorError::Unreadable),
    }
}

/// Turns the outcome of `free_percentage` into what the monitor reports.
fn report(pct: Result<u8, SampleError>, zero_total: FatalConfigError) -> (reported: Result<
    u8,
    MonitorError,
>)
    ensures
        reported == (match pct {
            Ok(p) => Ok(p),
            Err(SampleError::ZeroTotal) => Err(MonitorError::Fatal(zero_total)),
            Err(SampleError::FreeExceedsTotal) => Err(MonitorError::Unreadable),
        }),
{
    match pct {
        Ok(p) => Ok(p),
        Err(SampleError::ZeroTotal) => Err(MonitorError::Fatal(zero_total)),
        Err(SampleError::FreeExceedsTotal) => Err(MonitorError::Unreadable),
    }
}

impl MemoryReading {
    /// The free share of physical memory in this reading.
    pub open spec fn spec_ram_free_pct(self) -> Result<u8, MonitorError> {
        monitored(
            self.free_memory as nat,
            self.total_memory as nat,
            FatalConfigError::ZeroTotalMemory,
        )
    }

    /// The free share of swap in this reading.
    pub open spec fn spec_swap_free_pct(self) -> Result<u8, MonitorError> {
        monitored(self.free_swap as nat, self.total_swap as nat, FatalConfigError::ZeroTotalSwap)
    }

    /// The free share of physical memory, in percent. A total of zero is fatal.
    #[verifier::when_used_as_spec(spec_ram_free_pct)]
    pub fn ram_free_pct(self) -> (pct: Result<u8, MonitorError>)
        ensures
            pct == self.spec_ram_free_pct(),
            pct matches Ok(p) ==> p <= 100,
    {
        report(
            free_percentage(self.free_memory, self.total_memory),
            FatalConfigError::ZeroTotalMemory,
        )
    }

    /// The free share of swap, in percent. A total of zero is fatal.
    #[verifier::when_used_as_spec(spec_swap_free_pct)]
    pub fn swap_free_pct(self) -> (pct: Result<u8, MonitorError>)
        ensures
            pct == self.spec_swap_free_pct(),
            pct matches Ok(p) ==> p <= 100,
    {
        report(free_percentage(self.free_swap, self.total_swap), FatalConfigError::ZeroTotalSwap)
    }
}

/// The host's counters as `sysinfo` holds them after one refresh. The library takes a
/// snapshot from its caller and never builds one: building one reads the host.
#[verifier::external_type_specification]
#[verifier::external_body]
pub struct ExSystem(sysinfo::System);

/// The total physical memory that a snapshot holds: what `sysinfo`'s
/// `SystemExt::get_total_memory` returns for it.
pub uninterp spec fn snapshot_total_memory(snapshot: System) -> u64;

/// The free physical memory that a snapshot holds: what `sysinfo`'s
/// `SystemExt::get_free_memory` returns for it.
pub uninterp spec fn snapshot_free_memory(snapshot: System) -> u64;

/// The total swap that a snapshot holds: what `sysinfo`'s `SystemExt::get_total_swap`
/// returns for it.
pub uninterp spec fn snapshot_total_swap(snapshot: System) -> u64;

/// The free swap that a snapshot holds: what `sysinfo`'s `SystemExt::get_free_swap`
/// returns for it.
pub uninterp spec fn snapshot_free_swap(snapshot: System) -> u64;

/// The reading that a snapshot holds: its four counters.
pub open spec fn snapshot_reading(snapshot: System) -> MemoryReading {
    MemoryReading {
        total_memory: snapshot_total_memory(snapshot),
        free_memory: snapshot_free_memory(snapshot),
        total_swap: snapshot_total_swap(snapshot),
        free_swap: snapshot_free_swap(snapshot),
    }
}

/// Calls `sysinfo`'s `SystemExt::get_total_memory`, which returns a counter stored in the
/// snapshot. The contract claims only that the result is that counter: the same snapshot
/// gives the same number. Nothing is claimed of the number itself.
#[verifier::external_body]
fn total_memory(snapshot: &System) -> (amount: u64)
    ensures
        amount == snapshot_total_memory(*snapshot),
{
    snapshot.get_total_memory()
}

/// Calls `sysinfo`'s `SystemExt::get_free_memory`, which returns a counter stored in the
/// snapshot. The contract claims only that the result is that counter. Nothing is claimed
/// of the number itself, not even that it is within the total.
#[verifier::external_body]
fn free_memory(snapshot: &System) -> (amount: u64)
    ensures
        amount == snapshot_free_memory(*snapshot),
{
    snapshot.get_free_memory()
}

/// Calls `sysinfo`'s `SystemExt::get_total_swap`, which returns a counter stored in the
/// snapshot. The contract claims only that the result is that counter. Nothing is claimed
/// of the number itself.
#[verifier::external_body]
fn total_swap(snapshot: &System) -> (amount: u64)
    ensures
        amount == snapshot_total_swap(*snapshot),
{
    snapshot.get_total_swap()
}

/// Calls `sysinfo`'s `SystemExt::get_free_swap`, which returns a counter stored in the
/// snapshot. The contract claims only that the result is that counter. Nothing is claimed
/// of the number itself, not even that it is within the total.
#[verifier::external_body]
fn free_swap(snapshot: &System) -> (amount: u64)
    ensures
        amount == snapshot_free_swap(*snapshot),
{
    snapshot.get_free_swap()
}

/// Reads all four counters from a snapshot of the host.
pub fn sample_memory(snapshot: &System) -> (reading: MemoryReading)
    ensures
        reading == snapshot_reading(*snapshot),
{
    MemoryReading {
        total_memory: total_memory(snapshot),
        free_memory: free_memory(snapshot),
        total_swap: total_swap(snapshot),
        free_swap: free_swap(snapshot),
    }
}

/// The free share of physical memory in a snapshot of the host: the percentage that its
/// two memory counters give, at most one hundred, or `ZeroTotalMemory` as a fatal error
/// where the total is zero, or an unreadable sample where more is free than the total.
pub fn sample_ram_free_pct(snapshot: &System) -> (pct: Result<u8, MonitorError>)
    ensures
        pct == snapshot_reading(*snapshot).spec_ram_free_pct(),
        pct matches Ok(p) ==> p <= 100,
{
    let total = total_memory(snapshot);
    let free = free_memory(snapshot);
    report(free_percentage(free, total), FatalConfigError::ZeroTotalMemory)
}

/// The free share of swap in a snapshot of the host: the percentage that its two swap
/// counters give, at most one hundred, or `ZeroTotalSwap` as a fatal error where the
/// total is zero, or an unreadable sample where more is free than the total.
pub fn sample_swap_free_pct(snapshot: &System) -> (pct: Result<u8, MonitorError>)
    ensures
        pct == snapshot_reading(*snapshot).spec_swap_free_pct(),
        pct matches Ok(p) ==> p <= 100,
{
    let total = total_swap(snapshot);
    let free = free_swap(snapshot);
    report(free_percentage(free, total), FatalConfigError::ZeroTotalSwap)
}

} // verus!
