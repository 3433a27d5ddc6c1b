use swapfc::config::{Config, ConfigError};
use swapfc::controller::{Controller, Decision, Event, PoolError, Step};
use swapfc::memory::MemoryReading;
use swapfc::ops::{Op, Status, MKSWAP, SWAPOFF, SWAPON};

fn config(min_count: u8, max_count: u8) -> Config {
    Config { min_count, max_count, ..Config::default() }
}

fn started(min_count: u8, max_count: u8) -> Controller {
    match Controller::startup(config(min_count, max_count)) {
        Ok((controller, _)) => controller,
        Err(e) => panic!("configuration refused: {:?}", e),
    }
}

/// Plenty of free RAM, and `free` percent of free swap.
fn swap(free: u64) -> MemoryReading {
    MemoryReading { total_ram: 1000, free_ram: 900, total_swap: 100, free_swap: free }
}

/// `free` percent of free RAM, and no swap at all.
fn ram(free: u64) -> MemoryReading {
    MemoryReading { total_ram: 100, free_ram: free, total_swap: 0, free_swap: 0 }
}

fn growth(index: u8) -> Vec<Op> {
    vec![
        Op::Notify(Status::Allocating),
        Op::CreateFile(index),
        Op::Format(index),
        Op::Activate(index),
        Op::Notify(Status::Monitoring),
    ]
}

fn shrinking(index: u8) -> Vec<Op> {
    vec![
        Op::Notify(Status::Deallocating),
        Op::Deactivate(index),
        Op::RemoveFile(index),
        Op::Notify(Status::Monitoring),
    ]
}

fn grow_to(controller: &mut Controller, count: u8) {
    while controller.allocated() < count {
        assert!(controller.create_swapfile().is_ok());
    }
}

#[test]
fn diagnostics_name_the_operation() {
    assert_eq!(Op::Notify(Status::Monitoring).diagnostic(), "Unable to notify systemd");
    assert_eq!(Op::EnsurePoolDir.diagnostic(), "Unable to create swapfc_path");
    assert_eq!(Op::CreateSentinel.diagnostic(), "Unable to create swapfc lock");
    assert_eq!(Op::CreateFile(1).diagnostic(), "Unable to prepare swap file");
    assert_eq!(Op::Format(1).diagnostic(), "Unable to mkswap");
    assert_eq!(Op::Activate(1).diagnostic(), "Unable to swapon");
    assert_eq!(Op::Deactivate(1).diagnostic(), "Unable to swapoff");
    assert_eq!(Op::RemoveFile(1).diagnostic(), "Unable to remove file");
}

#[test]
fn utility_paths() {
    assert_eq!(MKSWAP, "/usr/bin/mkswap");
    assert_eq!(SWAPON, "/usr/bin/swapon");
    assert_eq!(SWAPOFF, "/usr/bin/swapoff");
}

#[test]
fn status_texts() {
    assert_eq!(Status::Allocating.text(), "Allocating swap file...");
    assert_eq!(Status::Deallocating.text(), "Deallocating swap file...");
    assert_eq!(Status::Monitoring.text(), "Monitoring memory status...");
}

#[test]
fn startup_with_a_floor_of_two() {
    let (controller, ops) = match Controller::startup(config(2, 32)) {
        Ok(started) => started,
        Err(e) => panic!("configuration refused: {:?}", e),
    };
    assert_eq!(controller.allocated(), 2);
    assert_eq!(
        ops,
        vec![
            Op::EnsurePoolDir,
            Op::Notify(Status::Allocating),
            Op::CreateFile(1),
            Op::Format(1),
            Op::Activate(1),
            Op::Notify(Status::Monitoring),
            Op::Notify(Status::Allocating),
            Op::CreateFile(2),
            Op::Format(2),
            Op::Activate(2),
            Op::Notify(Status::Monitoring),
            Op::CreateSentinel,
        ]
    );
}

#[test]
fn startup_without_a_floor() {
    let (controller, ops) = match Controller::startup(Config::default()) {
        Ok(started) => started,
        Err(e) => panic!("configuration refused: {:?}", e),
    };
    assert_eq!(controller.allocated(), 0);
    assert_eq!(controller.config(), Config::default());
    assert_eq!(ops, vec![Op::EnsurePoolDir, Op::CreateSentinel]);
}

#[test]
fn startup_with_the_largest_floor() {
    let (controller, ops) = match Controller::startup(config(255, 255)) {
        Ok(started) => started,
        Err(e) => panic!("configuration refused: {:?}", e),
    };
    assert_eq!(controller.allocated(), 255);
    assert_eq!(ops.len(), 2 + 5 * 255);
    assert_eq!(ops[1 + 5 * 254 + 1], Op::CreateFile(255));
    assert_eq!(ops[ops.len() - 1], Op::CreateSentinel);
}

#[test]
fn startup_refuses_a_bad_configuration() {
    let bad = Config { free_perc: 55, remove_free_perc: 15, ..Config::default() };
    assert_eq!(Controller::startup(bad).err(), Some(ConfigError::ThresholdsNotOrdered));
    let bad = Config { min_count: 4, max_count: 3, ..Config::default() };
    assert_eq!(Controller::startup(bad).err(), Some(ConfigError::FloorAboveCeiling));
    let bad = Config { buf_size: 0, ..Config::default() };
    assert_eq!(Controller::startup(bad).err(), Some(ConfigError::EmptyBuffer));
}

#[test]
fn create_swapfile_adds_the_next_file() {
    let mut controller = started(0, 32);
    assert_eq!(controller.create_swapfile(), Ok(growth(1)));
    assert_eq!(controller.allocated(), 1);
    assert_eq!(controller.create_swapfile(), Ok(growth(2)));
    assert_eq!(controller.allocated(), 2);
}

#[test]
fn create_swapfile_stops_at_the_ceiling() {
    let mut controller = started(0, 3);
    grow_to(&mut controller, 3);
    assert_eq!(controller.create_swapfile(), Err(PoolError::AtCeiling));
    assert_eq!(controller.allocated(), 3);
    assert_eq!(controller.create_swapfile(), Err(PoolError::AtCeiling));
    assert_eq!(controller.allocated(), 3);
}

#[test]
fn create_swapfile_up_to_the_largest_ceiling() {
    let mut controller = started(0, 255);
    grow_to(&mut controller, 254);
    assert_eq!(controller.create_swapfile(), Ok(growth(255)));
    assert_eq!(controller.allocated(), 255);
    assert_eq!(controller.create_swapfile(), Err(PoolError::AtCeiling));
    assert_eq!(controller.allocated(), 255);
}

#[test]
fn destroy_swapfile_takes_the_last_file() {
    let mut controller = started(0, 32);
    grow_to(&mut controller, 3);
    assert_eq!(controller.destroy_swapfile(), Ok(shrinking(3)));
    assert_eq!(controller.allocated(), 2);
    assert_eq!(controller.destroy_swapfile(), Ok(shrinking(2)));
    assert_eq!(controller.destroy_swapfile(), Ok(shrinking(1)));
    assert_eq!(controller.allocated(), 0);
}

#[test]
fn destroy_swapfile_stops_at_the_floor() {
    let mut controller = started(0, 32);
    assert_eq!(controller.destroy_swapfile(), Err(PoolError::AtFloor));
    assert_eq!(controller.allocated(), 0);
    let mut controller = started(2, 32);
    assert_eq!(controller.destroy_swapfile(), Err(PoolError::AtFloor));
    assert_eq!(controller.allocated(), 2);
    grow_to(&mut controller, 3);
    assert_eq!(controller.destroy_swapfile(), Ok(shrinking(3)));
    assert_eq!(controller.destroy_swapfile(), Err(PoolError::AtFloor));
    assert_eq!(controller.allocated(), 2);
}

#[test]
fn empty_pool_grows_on_short_ram() {
    let mut controller = started(0, 32);
    assert_eq!(controller.decide(&ram(14)), Decision::Grow);
    assert_eq!(controller.tick(&ram(14)), growth(1));
    assert_eq!(controller.allocated(), 1);
}

#[test]
fn empty_pool_idles_on_enough_ram() {
    let mut controller = started(0, 32);
    assert_eq!(controller.decide(&ram(15)), Decision::Idle);
    assert_eq!(controller.tick(&ram(15)), vec![]);
    assert_eq!(controller.tick(&ram(100)), vec![]);
    assert_eq!(controller.allocated(), 0);
}

#[test]
fn empty_pool_does_not_look_at_swap() {
    let mut controller = started(0, 32);
    // swap is nearly full, RAM is not
    assert_eq!(controller.tick(&swap(1)), vec![]);
    assert_eq!(controller.allocated(), 0);
    // RAM is short, swap is free
    let reading = MemoryReading { total_ram: 100, free_ram: 3, total_swap: 100, free_swap: 100 };
    assert_eq!(controller.tick(&reading), growth(1));
}

#[test]
fn filled_pool_does_not_look_at_ram() {
    let mut controller = started(0, 32);
    grow_to(&mut controller, 1);
    let reading = MemoryReading { total_ram: 100, free_ram: 1, total_swap: 100, free_swap: 80 };
    assert_eq!(controller.tick(&reading), vec![]);
    let reading = MemoryReading { total_ram: 100, free_ram: 99, total_swap: 100, free_swap: 14 };
    assert_eq!(controller.tick(&reading), growth(2));
}

#[test]
fn growth_threshold_is_exclusive() {
    let mut controller = started(0, 32);
    grow_to(&mut controller, 1);
    assert_eq!(controller.decide(&swap(15)), Decision::Idle);
    assert_eq!(controller.decide(&swap(14)), Decision::Grow);
}

#[test]
fn shrink_threshold_is_exclusive() {
    let mut controller = started(0, 32);
    grow_to(&mut controller, 3);
    assert_eq!(controller.decide(&swap(55)), Decision::Idle);
    assert_eq!(controller.decide(&swap(54)), Decision::Shrink);
    assert_eq!(controller.tick(&swap(54)), shrinking(3));
    assert_eq!(controller.allocated(), 2);
}

#[test]
fn two_files_are_kept_as_a_cushion() {
    let mut controller = started(0, 32);
    grow_to(&mut controller, 2);
    assert_eq!(controller.tick(&swap(40)), vec![]);
    assert_eq!(controller.tick(&swap(20)), vec![]);
    assert_eq!(controller.allocated(), 2);
    let mut controller = started(0, 32);
    grow_to(&mut controller, 1);
    assert_eq!(controller.tick(&swap(40)), vec![]);
    assert_eq!(controller.allocated(), 1);
}

#[test]
fn growth_is_judged_before_shrinking() {
    let mut controller = started(0, 32);
    grow_to(&mut controller, 3);
    assert_eq!(controller.decide(&swap(10)), Decision::GrowThenShrink);
    let mut expected = growth(4);
    expected.extend(shrinking(4));
    assert_eq!(controller.tick(&swap(10)), expected);
    assert_eq!(controller.allocated(), 3);
}

#[test]
fn growth_to_three_files_is_undone_in_the_same_tick() {
    let mut controller = started(0, 32);
    grow_to(&mut controller, 2);
    let mut expected = growth(3);
    expected.extend(shrinking(3));
    assert_eq!(controller.tick(&swap(10)), expected);
    assert_eq!(controller.allocated(), 2);
    // with one file the grown pool holds two, which is within the cushion
    let mut controller = started(0, 32);
    grow_to(&mut controller, 1);
    assert_eq!(controller.tick(&swap(10)), growth(2));
    assert_eq!(controller.allocated(), 2);
}

#[test]
fn thresholds_fifteen_and_fifty_five_on_a_swap_sequence() {
    let mut controller = started(0, 32);
    grow_to(&mut controller, 3);
    assert_eq!(controller.config().free_perc, 15);
    assert_eq!(controller.config().remove_free_perc, 55);

    // 10 % is below both thresholds: the pool grows, and the grown pool is
    // shrunk again at once
    assert_eq!(controller.decide(&swap(10)), Decision::GrowThenShrink);
    let ops = controller.tick(&swap(10));
    assert_eq!(ops[..5], growth(4)[..]);
    assert_eq!(ops[5..], shrinking(4)[..]);
    assert_eq!(controller.allocated(), 3);

    // 20 % is above the growth threshold and below the shrink threshold
    assert_eq!(controller.decide(&swap(20)), Decision::Shrink);
    assert_eq!(controller.tick(&swap(20)), shrinking(3));
    assert_eq!(controller.allocated(), 2);

    // 40 % would shrink too, but two files are kept
    assert_eq!(controller.decide(&swap(40)), Decision::Idle);
    assert_eq!(controller.tick(&swap(40)), vec![]);
    assert_eq!(controller.allocated(), 2);

    // 60 % is above both thresholds
    assert_eq!(controller.decide(&swap(60)), Decision::Idle);
    assert_eq!(controller.tick(&swap(60)), vec![]);
    assert_eq!(controller.allocated(), 2);
}

#[test]
fn growth_happens_once_on_the_swap_sequence() {
    let mut controller = started(0, 32);
    grow_to(&mut controller, 3);
    let mut grown_at = Vec::new();
    for free in [10u64, 20, 40, 60] {
        let ops = controller.tick(&swap(free));
        if ops.iter().any(|op| matches!(op, Op::CreateFile(_))) {
            grown_at.push(free);
        }
    }
    assert_eq!(grown_at, vec![10]);
}

#[test]
fn no_growth_at_the_ceiling() {
    let mut controller = started(0, 3);
    grow_to(&mut controller, 3);
    assert_eq!(controller.decide(&swap(60)), Decision::Idle);
    // under pressure the full pool does not grow; it is only eligible for shrinking
    assert_eq!(controller.decide(&swap(0)), Decision::Shrink);
    assert_eq!(controller.tick(&swap(0)), shrinking(3));
    assert_eq!(controller.allocated(), 2);
    assert_eq!(controller.tick(&swap(0)), growth(3).into_iter().chain(shrinking(3)).collect::<Vec<Op>>());
    assert_eq!(controller.allocated(), 2);
}

#[test]
fn no_growth_at_a_ceiling_of_two() {
    let mut controller = started(0, 2);
    grow_to(&mut controller, 2);
    for free in 0..=100u64 {
        assert_eq!(controller.tick(&swap(free)), vec![]);
        assert_eq!(controller.allocated(), 2);
    }
}

#[test]
fn empty_pool_with_a_ceiling_of_zero_stays_empty() {
    let mut controller = started(0, 0);
    assert_eq!(controller.decide(&ram(0)), Decision::Idle);
    assert_eq!(controller.tick(&ram(0)), vec![]);
    assert_eq!(controller.allocated(), 0);
    assert_eq!(controller.create_swapfile(), Err(PoolError::AtCeiling));
}

#[test]
fn no_shrink_at_a_floor_of_three() {
    let mut controller = started(3, 32);
    assert_eq!(controller.allocated(), 3);
    for free in 15..=100u64 {
        assert_eq!(controller.decide(&swap(free)), Decision::Idle);
        assert_eq!(controller.tick(&swap(free)), vec![]);
        assert_eq!(controller.allocated(), 3);
    }
    // below the growth threshold the pool grows, and only the file just
    // added is taken away again
    for free in 0..15u64 {
        assert_eq!(controller.decide(&swap(free)), Decision::GrowThenShrink);
        let ops = controller.tick(&swap(free));
        assert!(!ops.contains(&Op::Deactivate(3)));
        assert!(!ops.contains(&Op::RemoveFile(3)));
        assert_eq!(controller.allocated(), 3);
    }
}

#[test]
fn no_shrink_at_a_floor_that_is_the_ceiling() {
    let mut controller = started(3, 3);
    for free in 0..=100u64 {
        assert_eq!(controller.tick(&swap(free)), vec![]);
        assert_eq!(controller.allocated(), 3);
    }
}

#[test]
fn malformed_sample_is_skipped() {
    let mut controller = started(0, 32);
    let no_ram = MemoryReading { total_ram: 0, free_ram: 0, total_swap: 100, free_swap: 1 };
    assert_eq!(controller.tick(&no_ram), vec![]);
    let upside_down = MemoryReading { total_ram: 1, free_ram: 3, total_swap: 100, free_swap: 1 };
    assert_eq!(upside_down.get_free_ram_perc(), None);
    assert_eq!(controller.tick(&upside_down), vec![]);
    assert_eq!(controller.allocated(), 0);
    grow_to(&mut controller, 5);
    let no_swap = MemoryReading { total_ram: 100, free_ram: 1, total_swap: 0, free_swap: 0 };
    assert_eq!(controller.decide(&no_swap), Decision::Idle);
    assert_eq!(controller.tick(&no_swap), vec![]);
    let upside_down = MemoryReading { total_ram: 100, free_ram: 1, total_swap: 1, free_swap: 3 };
    assert_eq!(upside_down.get_free_swap_perc(), None);
    assert_eq!(controller.tick(&upside_down), vec![]);
    assert_eq!(controller.allocated(), 5);
}

#[test]
fn count_moves_by_one_at_most_and_stays_in_bounds() {
    let mut controller = started(1, 6);
    let mut seed: u64 = 0x2545f4914f6cdd1d;
    for _ in 0..5000 {
        seed ^= seed << 13;
        seed ^= seed >> 7;
        seed ^= seed << 17;
        let reading = MemoryReading {
            total_ram: 100,
            free_ram: seed % 101,
            total_swap: 100,
            free_swap: (seed >> 8) % 101,
        };
        let before = controller.allocated();
        let _ = controller.tick(&reading);
        let after = controller.allocated();
        assert!(after <= 6);
        assert!(after >= 1);
        assert!(after.abs_diff(before) <= 1);
    }
}

#[test]
fn step_without_the_sentinel_exits_and_issues_nothing() {
    let mut controller = started(0, 32);
    grow_to(&mut controller, 4);
    assert_eq!(controller.step(Event::SentinelGone), Step::Exit);
    assert_eq!(controller.allocated(), 4);
    // the answer stays the same however often it is asked for
    assert_eq!(controller.step(Event::SentinelGone), Step::Exit);
    assert_eq!(controller.allocated(), 4);
}

#[test]
fn step_with_a_sample_ticks() {
    let mut controller = started(0, 32);
    assert_eq!(controller.step(Event::Sample(ram(50))), Step::Continue(vec![]));
    assert_eq!(controller.step(Event::Sample(ram(5))), Step::Continue(growth(1)));
    assert_eq!(controller.allocated(), 1);
    assert_eq!(controller.step(Event::Sample(swap(5))), Step::Continue(growth(2)));
    assert_eq!(controller.allocated(), 2);
    assert_eq!(controller.step(Event::Sample(swap(70))), Step::Continue(vec![]));
    assert_eq!(controller.allocated(), 2);
}
