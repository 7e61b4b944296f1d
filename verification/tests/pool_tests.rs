use std::collections::BTreeMap;
use swapfc::activation::ActivationError;
use swapfc::chunk::AllocationError;
use swapfc::config::{FatalConfigError, SwapConfig};
use swapfc::event::{Event, Fault};
use swapfc::monitor::{sample_memory, MemoryReading};
use swapfc::pool::{Action, FatalError, FileState, GrowError, SwapFilePool, TickOutcome,
    TickState};
use swapfc::status::Status;
use sysinfo::{RefreshKind, System, SystemExt};

fn small(min_count: u8, max_count: u8) -> SwapConfig {
    SwapConfig {
        buffer_size: 4,
        free_ram_threshold_pct: 15,
        free_swap_grow_threshold_pct: 15,
        free_swap_shrink_threshold_pct: 55,
        chunk_size: 10,
        max_count,
        min_count,
    }
}

fn ram(pct: u64) -> MemoryReading {
    MemoryReading { total_memory: 100, free_memory: pct, total_swap: 0, free_swap: 0 }
}

fn swap(pct: u64) -> MemoryReading {
    MemoryReading { total_memory: 0, free_memory: 0, total_swap: 100, free_swap: pct }
}

/// A host that carries the pool's actions out on files held in memory.
struct Host {
    files: BTreeMap<u8, usize>,
    active: Vec<u8>,
    log: Vec<Action>,
    fail_format: bool,
    fail_enable: bool,
    fail_disable: bool,
    fail_remove: bool,
    fail_notify: bool,
    disk_limit: Option<usize>,
}

impl Host {
    fn new() -> Host {
        Host {
            files: BTreeMap::new(),
            active: Vec::new(),
            log: Vec::new(),
            fail_format: false,
            fail_enable: false,
            fail_disable: false,
            fail_remove: false,
            fail_notify: false,
            disk_limit: None,
        }
    }

    fn perform(&mut self, action: Action) -> Event {
        self.log.push(action);
        match action {
            Action::Notify(_) => {
                if self.fail_notify {
                    Event::Failed(Fault::Other)
                } else {
                    Event::Done
                }
            }
            Action::CreateFile(k) => {
                if self.files.contains_key(&k) {
                    Event::Failed(Fault::AlreadyExists)
                } else {
                    self.files.insert(k, 0);
                    Event::Done
                }
            }
            Action::WriteZeros(k, len) => {
                let at = *self.files.get(&k).expect("write to a missing file");
                if let Some(limit) = self.disk_limit {
                    if at + len > limit {
                        self.files.insert(k, limit);
                        return Event::Failed(Fault::StorageFull);
                    }
                }
                self.files.insert(k, at + len);
                Event::Done
            }
            Action::RemoveFile(k) => {
                assert!(!self.active.contains(&k), "removing a file that is active swap");
                if self.fail_remove {
                    Event::Failed(Fault::Other)
                } else {
                    assert!(self.files.remove(&k).is_some(), "removing a missing file");
                    Event::Done
                }
            }
            Action::Format(k) => {
                assert!(self.files.contains_key(&k));
                if self.fail_format {
                    Event::Failed(Fault::Other)
                } else {
                    Event::Done
                }
            }
            Action::Enable(k) => {
                assert!(self.files.contains_key(&k));
                if self.fail_enable {
                    Event::Failed(Fault::Other)
                } else {
                    self.active.push(k);
                    Event::Done
                }
            }
            Action::Disable(k) => {
                if self.fail_disable {
                    Event::Failed(Fault::Other)
                } else {
                    assert_eq!(self.active.pop(), Some(k));
                    Event::Done
                }
            }
            Action::Wait(_) | Action::Halt(_) => panic!("nothing to perform"),
        }
    }

    /// Carries out actions until the pool waits or halts.
    fn settle(&mut self, pool: &mut SwapFilePool, first: Action) -> Action {
        let mut action = first;
        let mut steps = 0;
        loop {
            match action {
                Action::Wait(_) | Action::Halt(_) => return action,
                _ => {}
            }
            let event = self.perform(action);
            action = pool.advance(event);
            steps += 1;
            assert!(steps < 100);
        }
    }

    fn tick(&mut self, pool: &mut SwapFilePool, reading: MemoryReading) -> Action {
        let first = pool.tick(reading);
        self.settle(pool, first)
    }

    fn indices(&self) -> Vec<u8> {
        self.files.keys().cloned().collect()
    }
}

/// Whether the newest counted file is disabled and still to be deleted.
fn top_is_disabled(pool: &SwapFilePool) -> bool {
    pool.allocated_count() > 0 && pool.file_state(pool.allocated_count()) == FileState::Deactivating
}

/// A pool with `count` active files on a host that holds them.
fn grown(config: SwapConfig, count: u8) -> (SwapFilePool, Host) {
    let mut pool = SwapFilePool::new(config).expect("valid settings");
    let mut host = Host::new();
    for i in 0..count {
        let reading = if i == 0 { ram(0) } else { swap(0) };
        assert_eq!(host.tick(&mut pool, reading), Action::Wait(TickOutcome::Grew(i + 1)));
    }
    assert_eq!(pool.allocated_count(), count);
    host.log.clear();
    (pool, host)
}

#[test]
fn a_new_pool_is_empty_and_waits() {
    let pool = SwapFilePool::new(SwapConfig::defaults()).unwrap();
    assert_eq!(pool.allocated_count(), 0);
    assert!(pool.is_waiting());
    assert!(pool.is_warmed());
    assert_eq!(pool.halted(), None);
    assert_eq!(pool.pending(), Action::Wait(TickOutcome::Idle));
    assert_eq!(pool.config(), SwapConfig::defaults());
}

#[test]
fn first_file_is_created_under_memory_pressure() {
    let mut c = SwapConfig::defaults();
    c.min_count = 0;
    c.max_count = 32;
    c.free_ram_threshold_pct = 15;
    c.chunk_size = 10;
    c.buffer_size = 4;
    let mut pool = SwapFilePool::new(c).unwrap();
    let mut host = Host::new();
    assert_eq!(pool.allocated_count(), 0);
    assert_eq!(host.tick(&mut pool, ram(10)), Action::Wait(TickOutcome::Grew(1)));
    assert_eq!(pool.allocated_count(), 1);
    assert_eq!(host.indices(), vec![1]);
    assert_eq!(host.active, vec![1]);
    assert_eq!(
        host.log,
        vec![
            Action::Notify(Status::Allocating),
            Action::CreateFile(1),
            Action::WriteZeros(1, 4),
            Action::WriteZeros(1, 4),
            Action::WriteZeros(1, 2),
            Action::Format(1),
            Action::Enable(1),
            Action::Notify(Status::Monitoring),
        ]
    );
}

#[test]
fn second_file_is_created_under_swap_pressure() {
    let (mut pool, mut host) = grown(small(0, 32), 1);
    assert_eq!(pool.allocated_count(), 1);
    assert_eq!(host.tick(&mut pool, swap(10)), Action::Wait(TickOutcome::Grew(2)));
    assert_eq!(pool.allocated_count(), 2);
    assert_eq!(host.indices(), vec![1, 2]);
    assert_eq!(host.log[1], Action::CreateFile(2));
    assert_eq!(host.files[&2], 10);
}

#[test]
fn no_file_is_created_at_the_memory_threshold() {
    let mut pool = SwapFilePool::new(small(0, 32)).unwrap();
    assert_eq!(pool.tick(ram(15)), Action::Wait(TickOutcome::Idle));
    assert_eq!(pool.allocated_count(), 0);
    assert!(pool.is_waiting());
    assert_eq!(pool.tick(ram(16)), Action::Wait(TickOutcome::Idle));
    assert_eq!(pool.tick(ram(100)), Action::Wait(TickOutcome::Idle));
    assert_eq!(pool.tick(ram(14)), Action::Notify(Status::Allocating));
}

#[test]
fn an_empty_pool_does_not_look_at_swap() {
    let mut pool = SwapFilePool::new(small(0, 32)).unwrap();
    let reading = MemoryReading { total_memory: 100, free_memory: 50, total_swap: 0, free_swap: 0 };
    assert_eq!(pool.tick(reading), Action::Wait(TickOutcome::Idle));
    let reading = MemoryReading { total_memory: 100, free_memory: 50, total_swap: 100, free_swap: 1 };
    assert_eq!(pool.tick(reading), Action::Wait(TickOutcome::Idle));
}

#[test]
fn a_pool_with_files_does_not_look_at_memory() {
    let (mut pool, mut host) = grown(small(0, 32), 1);
    let reading = MemoryReading { total_memory: 100, free_memory: 1, total_swap: 100, free_swap: 50 };
    assert_eq!(host.tick(&mut pool, reading), Action::Wait(TickOutcome::Holding));
    let reading = MemoryReading { total_memory: 0, free_memory: 0, total_swap: 100, free_swap: 50 };
    assert_eq!(host.tick(&mut pool, reading), Action::Wait(TickOutcome::Holding));
}

#[test]
fn no_file_is_created_at_the_swap_threshold() {
    let (mut pool, mut host) = grown(small(0, 32), 1);
    assert_eq!(host.tick(&mut pool, swap(15)), Action::Wait(TickOutcome::Holding));
    assert_eq!(host.tick(&mut pool, swap(14)), Action::Wait(TickOutcome::Grew(2)));
}

#[test]
fn the_decision_for_given_shares() {
    let (pool, _) = grown(small(0, 4), 0);
    assert_eq!(pool.decide(14, 100), TickState::Growing);
    assert_eq!(pool.decide(15, 0), TickState::Idle);
    let (pool, _) = grown(small(0, 4), 1);
    assert_eq!(pool.decide(0, 14), TickState::Growing);
    assert_eq!(pool.decide(0, 15), TickState::Holding);
    assert_eq!(pool.decide(0, 100), TickState::Holding);
    let (pool, _) = grown(small(0, 4), 2);
    assert_eq!(pool.decide(0, 56), TickState::Holding);
    let (pool, _) = grown(small(0, 4), 3);
    assert_eq!(pool.decide(0, 55), TickState::Holding);
    assert_eq!(pool.decide(0, 56), TickState::Shrinking);
    assert_eq!(pool.decide(0, 14), TickState::Growing);
    let (pool, _) = grown(small(0, 4), 4);
    assert_eq!(pool.decide(0, 14), TickState::Holding);
    assert_eq!(pool.decide(0, 56), TickState::Shrinking);
}

#[test]
fn the_pool_never_grows_beyond_its_ceiling() {
    let (mut pool, mut host) = grown(small(0, 3), 3);
    assert_eq!(host.tick(&mut pool, swap(0)), Action::Wait(TickOutcome::Holding));
    assert_eq!(pool.allocated_count(), 3);
    assert!(host.log.is_empty());
    assert_eq!(host.indices(), vec![1, 2, 3]);
}

#[test]
fn a_ceiling_of_one_holds_one_file() {
    let (mut pool, mut host) = grown(small(0, 1), 1);
    assert_eq!(host.tick(&mut pool, swap(0)), Action::Wait(TickOutcome::Holding));
    assert_eq!(host.tick(&mut pool, swap(100)), Action::Wait(TickOutcome::Holding));
    assert_eq!(pool.allocated_count(), 1);
}

#[test]
fn the_newest_file_goes_when_swap_is_free_again() {
    let (mut pool, mut host) = grown(small(0, 32), 4);
    assert_eq!(host.tick(&mut pool, swap(56)), Action::Wait(TickOutcome::Shrank(4)));
    assert_eq!(pool.allocated_count(), 3);
    assert_eq!(host.indices(), vec![1, 2, 3]);
    assert_eq!(host.active, vec![1, 2, 3]);
    assert_eq!(
        host.log,
        vec![
            Action::Notify(Status::Removing),
            Action::Disable(4),
            Action::RemoveFile(4),
            Action::Notify(Status::Monitoring),
        ]
    );
}

#[test]
fn nothing_shrinks_at_the_shrink_threshold() {
    let (mut pool, mut host) = grown(small(0, 32), 4);
    assert_eq!(host.tick(&mut pool, swap(55)), Action::Wait(TickOutcome::Holding));
    assert_eq!(host.tick(&mut pool, swap(30)), Action::Wait(TickOutcome::Holding));
    assert_eq!(pool.allocated_count(), 4);
}

#[test]
fn shrinking_stops_at_two_files() {
    let (mut pool, mut host) = grown(small(0, 32), 4);
    assert_eq!(host.tick(&mut pool, swap(100)), Action::Wait(TickOutcome::Shrank(4)));
    assert_eq!(host.tick(&mut pool, swap(100)), Action::Wait(TickOutcome::Shrank(3)));
    assert_eq!(host.tick(&mut pool, swap(100)), Action::Wait(TickOutcome::Holding));
    assert_eq!(host.tick(&mut pool, swap(100)), Action::Wait(TickOutcome::Holding));
    assert_eq!(pool.allocated_count(), 2);
    assert_eq!(host.indices(), vec![1, 2]);
}

#[test]
fn shrinking_stops_at_the_floor() {
    let mut pool = SwapFilePool::new(small(4, 32)).unwrap();
    let mut host = Host::new();
    while !pool.is_warmed() {
        let first = pool.prewarm();
        host.settle(&mut pool, first);
    }
    assert_eq!(pool.allocated_count(), 4);
    assert_eq!(host.tick(&mut pool, swap(0)), Action::Wait(TickOutcome::Grew(5)));
    assert_eq!(host.tick(&mut pool, swap(100)), Action::Wait(TickOutcome::Shrank(5)));
    assert_eq!(host.tick(&mut pool, swap(100)), Action::Wait(TickOutcome::Holding));
    assert_eq!(pool.allocated_count(), 4);
    assert_eq!(host.indices(), vec![1, 2, 3, 4]);
}

#[test]
fn growth_is_decided_before_shrinking() {
    let mut c = small(0, 4);
    c.free_swap_grow_threshold_pct = 60;
    c.free_swap_shrink_threshold_pct = 40;
    let (mut pool, mut host) = grown(c, 3);
    assert_eq!(host.tick(&mut pool, swap(50)), Action::Wait(TickOutcome::Grew(4)));
    assert_eq!(host.tick(&mut pool, swap(50)), Action::Wait(TickOutcome::Shrank(4)));
    assert_eq!(pool.allocated_count(), 3);
}

#[test]
fn filling_up_creates_files_without_a_reading() {
    let mut pool = SwapFilePool::new(small(2, 32)).unwrap();
    let mut host = Host::new();
    assert!(!pool.is_warmed());
    assert_eq!(pool.prewarm(), Action::Notify(Status::Allocating));
    let first = pool.pending();
    assert_eq!(host.settle(&mut pool, first), Action::Wait(TickOutcome::Grew(1)));
    assert!(!pool.is_warmed());
    let first = pool.prewarm();
    assert_eq!(host.settle(&mut pool, first), Action::Wait(TickOutcome::Grew(2)));
    assert!(pool.is_warmed());
    assert_eq!(pool.prewarm(), Action::Wait(TickOutcome::Grew(2)));
    assert_eq!(pool.allocated_count(), 2);
    assert_eq!(host.indices(), vec![1, 2]);
}

#[test]
fn filling_up_a_pool_without_floor_does_nothing() {
    let mut pool = SwapFilePool::new(small(0, 32)).unwrap();
    assert_eq!(pool.prewarm(), Action::Wait(TickOutcome::Idle));
    assert_eq!(pool.allocated_count(), 0);
}

#[test]
fn a_collision_halts_the_pool() {
    let mut pool = SwapFilePool::new(small(0, 32)).unwrap();
    let mut host = Host::new();
    host.files.insert(1, 3);
    assert_eq!(
        host.tick(&mut pool, ram(0)),
        Action::Halt(FatalError::IndexCollision(1))
    );
    assert_eq!(pool.allocated_count(), 0);
    assert_eq!(host.files[&1], 3);
    assert_eq!(host.log, vec![Action::Notify(Status::Allocating), Action::CreateFile(1)]);
    assert_eq!(pool.halted(), Some(FatalError::IndexCollision(1)));
    assert!(!pool.is_waiting());
}

#[test]
fn a_halted_pool_stays_halted() {
    let mut pool = SwapFilePool::new(small(0, 32)).unwrap();
    let mut host = Host::new();
    host.files.insert(1, 3);
    let halt = host.tick(&mut pool, ram(0));
    assert_eq!(pool.advance(Event::Done), halt);
    assert_eq!(pool.advance(Event::Failed(Fault::Other)), halt);
    assert_eq!(pool.tick(ram(0)), halt);
    assert_eq!(pool.prewarm(), halt);
    assert_eq!(pool.allocated_count(), 0);
}

#[test]
fn disk_full_while_writing_rolls_the_file_back() {
    let mut pool = SwapFilePool::new(small(0, 32)).unwrap();
    let mut host = Host::new();
    host.disk_limit = Some(6);
    assert_eq!(
        host.tick(&mut pool, ram(0)),
        Action::Wait(TickOutcome::GrowFailed(1, GrowError::Allocation(AllocationError::OutOfSpace)))
    );
    assert_eq!(pool.allocated_count(), 0);
    assert!(host.indices().is_empty());
    assert_eq!(
        host.log,
        vec![
            Action::Notify(Status::Allocating),
            Action::CreateFile(1),
            Action::WriteZeros(1, 4),
            Action::WriteZeros(1, 4),
            Action::RemoveFile(1),
            Action::Notify(Status::Monitoring),
        ]
    );
    host.disk_limit = None;
    assert_eq!(host.tick(&mut pool, ram(0)), Action::Wait(TickOutcome::Grew(1)));
}

#[test]
fn a_creation_that_fails_is_reported_and_the_loop_goes_on() {
    let mut pool = SwapFilePool::new(small(0, 32)).unwrap();
    assert_eq!(pool.tick(ram(0)), Action::Notify(Status::Allocating));
    assert_eq!(pool.advance(Event::Done), Action::CreateFile(1));
    assert_eq!(pool.advance(Event::Failed(Fault::Other)), Action::Notify(Status::Monitoring));
    assert_eq!(
        pool.advance(Event::Done),
        Action::Wait(TickOutcome::GrowFailed(1, GrowError::Allocation(AllocationError::IoFailure)))
    );
    assert!(pool.is_waiting());
    assert_eq!(pool.allocated_count(), 0);
}

#[test]
fn a_file_that_cannot_be_formatted_is_removed_again() {
    let (mut pool, mut host) = grown(small(0, 32), 1);
    host.fail_format = true;
    assert_eq!(
        host.tick(&mut pool, swap(0)),
        Action::Wait(TickOutcome::GrowFailed(2, GrowError::Activation(ActivationError::FormatFailed)))
    );
    assert_eq!(pool.allocated_count(), 1);
    assert_eq!(host.indices(), vec![1]);
    assert_eq!(host.log[host.log.len() - 3..], [
        Action::Format(2),
        Action::RemoveFile(2),
        Action::Notify(Status::Monitoring),
    ]);
    assert!(!host.log.contains(&Action::Enable(2)));
}

#[test]
fn a_file_that_cannot_be_enabled_is_removed_again() {
    let (mut pool, mut host) = grown(small(0, 32), 1);
    host.fail_enable = true;
    assert_eq!(
        host.tick(&mut pool, swap(0)),
        Action::Wait(TickOutcome::GrowFailed(2, GrowError::Activation(ActivationError::EnableFailed)))
    );
    assert_eq!(pool.allocated_count(), 1);
    assert_eq!(host.indices(), vec![1]);
    assert_eq!(host.active, vec![1]);
    host.fail_enable = false;
    assert_eq!(host.tick(&mut pool, swap(0)), Action::Wait(TickOutcome::Grew(2)));
}

#[test]
fn a_file_that_cannot_be_disabled_stays() {
    let (mut pool, mut host) = grown(small(0, 32), 3);
    host.fail_disable = true;
    assert_eq!(
        host.tick(&mut pool, swap(100)),
        Action::Wait(TickOutcome::ShrinkFailed(3, ActivationError::DisableFailed))
    );
    assert_eq!(pool.allocated_count(), 3);
    assert_eq!(host.indices(), vec![1, 2, 3]);
    assert_eq!(host.active, vec![1, 2, 3]);
    assert!(!host.log.contains(&Action::RemoveFile(3)));
    host.fail_disable = false;
    assert_eq!(host.tick(&mut pool, swap(100)), Action::Wait(TickOutcome::Shrank(3)));
}

#[test]
fn a_file_that_cannot_be_deleted_is_still_counted() {
    let (mut pool, mut host) = grown(small(0, 32), 3);
    host.fail_remove = true;
    assert_eq!(
        host.tick(&mut pool, swap(100)),
        Action::Wait(TickOutcome::ShrinkFailed(3, ActivationError::FileRemovalFailed))
    );
    assert_eq!(pool.allocated_count(), 3);
    assert_eq!(host.indices(), vec![1, 2, 3]);
}

#[test]
fn a_deletion_that_failed_is_retried_without_disabling_again() {
    let (mut pool, mut host) = grown(small(0, 32), 3);
    host.fail_remove = true;
    host.tick(&mut pool, swap(100));
    assert_eq!(host.active, vec![1, 2]);
    assert_eq!(pool.file_state(3), FileState::Deactivating);
    assert_eq!(pool.file_state(2), FileState::Active);
    host.log.clear();
    assert_eq!(
        host.tick(&mut pool, swap(100)),
        Action::Wait(TickOutcome::ShrinkFailed(3, ActivationError::FileRemovalFailed))
    );
    assert_eq!(
        host.log,
        vec![
            Action::Notify(Status::Removing),
            Action::RemoveFile(3),
            Action::Notify(Status::Monitoring),
        ]
    );
    assert_eq!(pool.file_state(3), FileState::Deactivating);
    host.fail_remove = false;
    host.log.clear();
    assert_eq!(host.tick(&mut pool, swap(100)), Action::Wait(TickOutcome::Shrank(3)));
    assert_eq!(
        host.log,
        vec![
            Action::Notify(Status::Removing),
            Action::RemoveFile(3),
            Action::Notify(Status::Monitoring),
        ]
    );
    assert_eq!(pool.allocated_count(), 2);
    assert_eq!(host.indices(), vec![1, 2]);
    assert_eq!(host.active, vec![1, 2]);
    assert_eq!(pool.file_state(3), FileState::Removed);
    assert_eq!(pool.file_state(2), FileState::Active);
}

#[test]
fn an_outstanding_deletion_comes_before_any_decision() {
    let (mut pool, mut host) = grown(small(0, 32), 3);
    host.fail_remove = true;
    host.tick(&mut pool, swap(100));
    host.fail_remove = false;
    host.log.clear();
    // Swap is short again, and the reading is not even usable: the deletion still comes first.
    let reading = MemoryReading { total_memory: 0, free_memory: 0, total_swap: 0, free_swap: 0 };
    assert_eq!(host.tick(&mut pool, reading), Action::Wait(TickOutcome::Shrank(3)));
    assert!(!host.log.contains(&Action::Disable(3)));
    assert!(!host.log.contains(&Action::CreateFile(4)));
    assert_eq!(pool.allocated_count(), 2);
    assert_eq!(host.tick(&mut pool, swap(0)), Action::Wait(TickOutcome::Grew(3)));
    assert_eq!(host.indices(), vec![1, 2, 3]);
    assert_eq!(host.active, vec![1, 2, 3]);
}

#[test]
fn a_file_that_could_not_be_disabled_is_still_active() {
    let (mut pool, mut host) = grown(small(0, 32), 3);
    host.fail_disable = true;
    host.tick(&mut pool, swap(100));
    assert_eq!(pool.file_state(3), FileState::Active);
    host.fail_disable = false;
    host.log.clear();
    host.tick(&mut pool, swap(100));
    assert_eq!(host.log[1], Action::Disable(3));
}

#[test]
fn a_status_line_that_cannot_be_sent_stops_nothing() {
    let mut pool = SwapFilePool::new(small(0, 32)).unwrap();
    let mut host = Host::new();
    host.fail_notify = true;
    assert_eq!(host.tick(&mut pool, ram(0)), Action::Wait(TickOutcome::Grew(1)));
    assert_eq!(host.tick(&mut pool, swap(0)), Action::Wait(TickOutcome::Grew(2)));
    assert_eq!(host.tick(&mut pool, swap(0)), Action::Wait(TickOutcome::Grew(3)));
    assert_eq!(host.tick(&mut pool, swap(100)), Action::Wait(TickOutcome::Shrank(3)));
    assert_eq!(pool.allocated_count(), 2);
}

#[test]
fn zero_total_memory_halts_an_empty_pool() {
    let mut pool = SwapFilePool::new(small(0, 32)).unwrap();
    let reading = MemoryReading { total_memory: 0, free_memory: 0, total_swap: 100, free_swap: 50 };
    assert_eq!(
        pool.tick(reading),
        Action::Halt(FatalError::Config(FatalConfigError::ZeroTotalMemory))
    );
    assert_eq!(pool.halted(), Some(FatalError::Config(FatalConfigError::ZeroTotalMemory)));
}

#[test]
fn zero_total_swap_halts_a_pool_with_files() {
    let (mut pool, _) = grown(small(0, 32), 1);
    let reading = MemoryReading { total_memory: 100, free_memory: 50, total_swap: 0, free_swap: 0 };
    assert_eq!(
        pool.tick(reading),
        Action::Halt(FatalError::Config(FatalConfigError::ZeroTotalSwap))
    );
    assert_eq!(pool.allocated_count(), 1);
}

#[test]
fn an_unusable_reading_skips_the_tick() {
    let mut pool = SwapFilePool::new(small(0, 32)).unwrap();
    let reading = MemoryReading { total_memory: 10, free_memory: 11, total_swap: 0, free_swap: 0 };
    assert_eq!(pool.tick(reading), Action::Wait(TickOutcome::Skipped));
    assert!(pool.is_waiting());
    assert_eq!(pool.tick(ram(0)), Action::Notify(Status::Allocating));
}

#[test]
fn a_tick_during_an_operation_is_ignored() {
    let mut pool = SwapFilePool::new(small(0, 32)).unwrap();
    assert_eq!(pool.tick(ram(0)), Action::Notify(Status::Allocating));
    assert_eq!(pool.tick(ram(100)), Action::Notify(Status::Allocating));
    assert_eq!(pool.advance(Event::Done), Action::CreateFile(1));
    assert_eq!(pool.tick(ram(100)), Action::CreateFile(1));
    assert_eq!(pool.prewarm(), Action::CreateFile(1));
    assert_eq!(pool.advance(Event::Done), Action::WriteZeros(1, 4));
    assert_eq!(pool.pending(), Action::WriteZeros(1, 4));
    assert!(!pool.is_waiting());
}

#[test]
fn a_report_without_pending_action_is_ignored() {
    let mut pool = SwapFilePool::new(small(0, 32)).unwrap();
    assert_eq!(pool.advance(Event::Done), Action::Wait(TickOutcome::Idle));
    assert_eq!(pool.advance(Event::Failed(Fault::AlreadyExists)), Action::Wait(TickOutcome::Idle));
    assert_eq!(pool.allocated_count(), 0);
}

#[test]
fn the_life_of_a_swap_file() {
    let mut pool = SwapFilePool::new(small(0, 32)).unwrap();
    assert_eq!(pool.file_state(1), FileState::Removed);
    pool.tick(ram(0));
    assert_eq!(pool.file_state(1), FileState::Removed);
    assert_eq!(pool.advance(Event::Done), Action::CreateFile(1));
    assert_eq!(pool.file_state(1), FileState::Materializing);
    assert_eq!(pool.advance(Event::Done), Action::WriteZeros(1, 4));
    assert_eq!(pool.file_state(1), FileState::Materializing);
    pool.advance(Event::Done);
    pool.advance(Event::Done);
    assert_eq!(pool.advance(Event::Done), Action::Format(1));
    assert_eq!(pool.file_state(1), FileState::Materialized);
    assert_eq!(pool.advance(Event::Done), Action::Enable(1));
    assert_eq!(pool.file_state(1), FileState::Materialized);
    assert_eq!(pool.advance(Event::Done), Action::Notify(Status::Monitoring));
    assert_eq!(pool.file_state(1), FileState::Active);
    assert_eq!(pool.file_state(2), FileState::Removed);
    assert_eq!(pool.file_state(0), FileState::Removed);
    pool.advance(Event::Done);
    let mut host = Host::new();
    host.files.insert(1, 10);
    host.active.push(1);
    host.tick(&mut pool, swap(0));
    host.tick(&mut pool, swap(0));
    assert_eq!(pool.allocated_count(), 3);
    assert_eq!(pool.tick(swap(100)), Action::Notify(Status::Removing));
    assert_eq!(pool.file_state(3), FileState::Active);
    assert_eq!(pool.advance(Event::Done), Action::Disable(3));
    assert_eq!(pool.file_state(3), FileState::Active);
    assert_eq!(pool.file_state(2), FileState::Active);
    assert_eq!(pool.advance(Event::Done), Action::RemoveFile(3));
    assert_eq!(pool.file_state(3), FileState::Deactivating);
    assert_eq!(pool.advance(Event::Done), Action::Notify(Status::Monitoring));
    assert_eq!(pool.file_state(3), FileState::Removed);
    assert_eq!(pool.file_state(2), FileState::Active);
}

#[test]
fn indices_on_disk_stay_dense_and_the_count_stays_in_bounds() {
    let mut c = small(0, 6);
    c.chunk_size = 9;
    let mut pool = SwapFilePool::new(c).unwrap();
    let mut host = Host::new();
    let mut seed: u32 = 12345;
    for _ in 0..2000 {
        seed = seed.wrapping_mul(1103515245).wrapping_add(12345);
        let pct = u64::from((seed >> 16) % 101);
        seed = seed.wrapping_mul(1103515245).wrapping_add(12345);
        let trouble = (seed >> 16) % 7;
        host.fail_format = trouble == 1;
        host.fail_enable = trouble == 2;
        host.fail_disable = trouble == 3;
        host.disk_limit = if trouble == 4 { Some(5) } else { None };
        let top_was_disabled = top_is_disabled(&pool);
        host.fail_remove = trouble == 5 && (top_was_disabled || pct > 55);
        let before = pool.allocated_count();
        let reading = MemoryReading { total_memory: 100, free_memory: pct, total_swap: 100, free_swap: pct };
        let end = host.tick(&mut pool, reading);
        assert!(matches!(end, Action::Wait(_)));
        let after = pool.allocated_count();
        assert!(after <= 6);
        assert!(after == before || after == before + 1 || after + 1 == before);
        if after < before {
            assert!(after >= 2);
        }
        let expected: Vec<u8> = (1..=after).collect();
        assert_eq!(host.indices(), expected);
        let live = if top_is_disabled(&pool) { after - 1 } else { after };
        let expected_active: Vec<u8> = (1..=live).collect();
        assert_eq!(host.active, expected_active);
        assert!(host.files.values().all(|&len| len == 9));
        let made = host.log.iter().filter(|a| matches!(a, Action::CreateFile(_))).count();
        let gone = host.log.iter().filter(|a| matches!(a, Action::RemoveFile(_))).count();
        assert!(made <= 1 && gone <= 1);
        host.log.clear();
    }
}

#[test]
fn the_count_stays_at_or_above_a_floor_once_reached() {
    let mut pool = SwapFilePool::new(small(3, 5)).unwrap();
    let mut host = Host::new();
    while !pool.is_warmed() {
        let first = pool.prewarm();
        assert!(matches!(host.settle(&mut pool, first), Action::Wait(TickOutcome::Grew(_))));
    }
    let mut seed: u32 = 99;
    for _ in 0..500 {
        seed = seed.wrapping_mul(1103515245).wrapping_add(12345);
        let pct = u64::from((seed >> 16) % 101);
        host.tick(&mut pool, swap(pct));
        assert!(pool.allocated_count() >= 3 && pool.allocated_count() <= 5);
        assert!(pool.is_warmed());
    }
}

#[test]
fn polling_a_snapshot_starts_a_tick_with_its_reading() {
    let host = System::new_with_specifics(RefreshKind::new().with_memory());
    let mut pool = SwapFilePool::new(SwapConfig::defaults()).unwrap();
    let mut twin = SwapFilePool::new(SwapConfig::defaults()).unwrap();
    let action = pool.poll(&host);
    assert_eq!(action, pool.pending());
    assert_eq!(action, twin.tick(sample_memory(&host)));
    assert_eq!(pool, twin);
    assert_eq!(pool.poll(&host), twin.tick(sample_memory(&host)));
    assert_eq!(pool, twin);
    assert_eq!(pool.allocated_count(), 0);
    assert!(matches!(
        action,
        Action::Wait(TickOutcome::Idle) | Action::Wait(TickOutcome::Skipped)
            | Action::Notify(Status::Allocating)
            | Action::Halt(FatalError::Config(FatalConfigError::ZeroTotalMemory))
    ));
}
