//! Configuration values that the pool consumes.

use vstd::prelude::*;
use crate::text::same_text;

verus! {

/// The directory that holds the pool's swap files.
pub const POOL_DIR: &'static str = "/var/lib/systemd-swap/swapfc";

/// The permission bits of a swap file: readable and writable by its owner only, so that
/// nobody else reads what was swapped out.
pub const SWAP_FILE_MODE: u32 = 0o600;

/// The number of seconds between two ticks.
pub const TICK_SECONDS: u64 = 1;

/// Why the daemon must not start, or must stop, managing swap.
#[derive(Clone, Copy, Debug, PartialEq, Eq, Structural)]
pub enum FatalConfigError {
    /// The host reports zero bytes of physical memory.
    ZeroTotalMemory,
    /// The host reports zero bytes of swap although swap files are active.
    ZeroTotalSwap,
    /// A threshold is above one hundred percent.
    ThresholdOutOfRange,
    /// `max_count` is zero, or `min_count` is above `max_count`.
    CountOutOfRange,
    /// `buffer_size` is zero or above `chunk_size`.
    BufferOutOfRange,
}

/// The read-only settings of a swap-file pool.
#[derive(Clone, Copy, Debug, PartialEq, Eq, Structural)]
pub struct SwapConfig {
    /// How many bytes one write to a new swap file covers at most.
    pub buffer_size: usize,
    /// With no swap file active, the first one is created while less than this
    /// percentage of physical memory is free.
    pub free_ram_threshold_pct: u8,
    /// A further swap file is created while less than this percentage of swap is free.
    pub free_swap_grow_threshold_pct: u8,
    /// The newest swap file is destroyed while more than this percentage of swap is free.
    pub free_swap_shrink_threshold_pct: u8,
    /// The size of every swap file, in bytes.
    pub chunk_size: usize,
    /// The pool never holds more swap files than this.
    pub max_count: u8,
    /// The pool is filled up to this many swap files before monitoring starts.
    pub min_count: u8,
}

impl SwapConfig {
    /// All three thresholds are percentages.
    pub open spec fn thresholds_in_range(self) -> bool {
        &&& self.free_ram_threshold_pct <= 100
        &&& self.free_swap_grow_threshold_pct <= 100
        &&& self.free_swap_shrink_threshold_pct <= 100
    }

    /// There is room for at least one swap file, and the floor is not above the ceiling.
    pub open spec fn counts_in_range(self) -> bool {
        0 < self.max_count && self.min_count <= self.max_count
    }

    /// A write covers at least one byte and at most a whole swap file.
    pub open spec fn sizes_in_range(self) -> bool {
        0 < self.buffer_size <= self.chunk_size
    }

    /// The settings with which a pool can be run.
    pub open spec fn valid(self) -> bool {
        self.thresholds_in_range() && self.counts_in_range() && self.sizes_in_range()
    }

    /// The built-in settings: 8 MiB writes, 256 MiB swap files, at most 32 of them,
    /// none kept in reserve, growth below 15 % free, shrinking above 55 % free.
    pub fn defaults() -> (config: SwapConfig)
        ensures
            config.valid(),
            config == (SwapConfig {
                buffer_size: 8388608,
                free_ram_threshold_pct: 15,
                free_swap_grow_threshold_pct: 15,
                free_swap_shrink_threshold_pct: 55,
                chunk_size: 268435456,
                max_count: 32,
                min_count: 0,
            }),
    {
        SwapConfig {
            buffer_size: 8388608,
            free_ram_threshold_pct: 15,
            free_swap_grow_threshold_pct: 15,
            free_swap_shrink_threshold_pct: 55,
            chunk_size: 268435456,
            max_count: 32,
            min_count: 0,
        }
    }

    /// What checking the settings yields. Thresholds are looked at first, then the
    /// counts, then the sizes, and the first group that is out of range names the error.
    pub open spec fn checked(self) -> Result<(), FatalConfigError> {
        if !self.thresholds_in_range() {
            Err(FatalConfigError::ThresholdOutOfRange)
        } else if !self.counts_in_range() {
            Err(FatalConfigError::CountOutOfRange)
        } else if !self.sizes_in_range() {
            Err(FatalConfigError::BufferOutOfRange)
        } else {
            Ok(())
        }
    }

    /// Checks the settings: `Ok` exactly for valid ones, else the error of the first
    /// group that is out of range.
    pub fn validate(&self) -> (checked: Result<(), FatalConfigError>)
        ensures
            checked == self.checked(),
            checked is Ok <==> self.valid(),
    {
        if self.free_ram_threshold_pct > 100 || self.free_swap_grow_threshold_pct > 100
            || self.free_swap_shrink_threshold_pct > 100 {
            Err(FatalConfigError::ThresholdOutOfRange)
        } else if self.max_count == 0 || self.min_count > self.max_count {
            Err(FatalConfigError::CountOutOfRange)
        } else if self.buffer_size == 0 || self.buffer_size > self.chunk_size {
            Err(FatalConfigError::BufferOutOfRange)
        } else {
            Ok(())
        }
    }
}

/// Whether a configuration switch is set: the spellings `true`, `yes`, `1` and `y`
/// count as set, everything else as unset.
pub fn config_is_true(config: &str) -> (set: bool)
    ensures
        set == (config@ == "true"@ || config@ == "yes"@ || config@ == "1"@ || config@ == "y"@),
{
    same_text(config, "true") || same_text(config, "yes") || same_text(config, "1") || same_text(
        config,
        "y",
    )
}

} // verus!
