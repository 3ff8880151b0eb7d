use voxel_engine::timestep::{FixedTimestep, TICK_PERIOD_NANOS};

#[test]
fn tick_period_is_one_sixtieth_of_a_second() {
    assert_eq!(TICK_PERIOD_NANOS, 1_000_000_000 / 60);
}

#[test]
fn no_tick_until_a_whole_period_has_elapsed() {
    let mut t = FixedTimestep::new(TICK_PERIOD_NANOS);
    assert_eq!(t.advance(TICK_PERIOD_NANOS - 1), 0);
    assert_eq!(t.ticks, 0);
    assert_eq!(t.advance(1), 1);
    assert_eq!(t.ticks, 1);
    assert_eq!(t.accumulator_nanos, 0);
}

#[test]
fn a_long_stall_runs_every_missed_tick() {
    let mut t = FixedTimestep::new(TICK_PERIOD_NANOS);
    let ran = t.advance(10 * TICK_PERIOD_NANOS + 3);
    assert_eq!(ran, 10);
    assert_eq!(t.ticks, 10);
    assert_eq!(t.accumulator_nanos, 3);
}

#[test]
fn tick_count_is_total_elapsed_over_period() {
    // The example delta sequence: 0.033 s, 0.033 s, 0 s, 0.05 s.
    let deltas: Vec<u64> = vec![33_000_000, 33_000_000, 0, 50_000_000];
    let mut t = FixedTimestep::new(TICK_PERIOD_NANOS);
    for d in &deltas {
        t.advance(*d);
    }
    let total: u64 = deltas.iter().sum();
    assert_eq!(t.ticks, total / TICK_PERIOD_NANOS);
    assert_eq!(t.ticks, 6);
}

#[test]
fn tick_count_is_independent_of_the_split() {
    let splits: Vec<Vec<u64>> = vec![
        vec![116_000_000],
        vec![33_000_000, 33_000_000, 0, 50_000_000],
        vec![1_000_000; 116],
        vec![58_000_000, 58_000_000],
    ];
    for deltas in splits {
        let mut t = FixedTimestep::new(TICK_PERIOD_NANOS);
        for d in &deltas {
            t.advance(*d);
        }
        assert_eq!(t.ticks, 6);
        assert_eq!(t.accumulator_nanos, 116_000_000 % TICK_PERIOD_NANOS);
    }
}
