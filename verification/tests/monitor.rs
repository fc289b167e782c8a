use techno_sutra::performance::monitor::{
    update_fps, FpsMonitor, FPS, MAX_FPS, MAX_SAMPLE, MILLISECOND, MIN_FPS, SECOND,
};

#[test]
fn units_are_microseconds_and_millionths_of_a_frame_per_second() {
    assert_eq!(SECOND, 1_000_000);
    assert_eq!(MILLISECOND, 1_000);
    assert_eq!(FPS, 1_000_000);
    assert_eq!(MAX_SAMPLE, 1_000_000);
    assert_eq!(MIN_FPS, 1_000_000);
    assert_eq!(MAX_FPS, 1_000_000_000_000);
}

#[test]
fn monitor_starts_at_sixty_fps_with_a_warm_up_cooldown() {
    let monitor = FpsMonitor::default();
    assert_eq!(monitor.fps_fast, 60 * FPS);
    assert_eq!(monitor.fps_slow, 60 * FPS);
    assert_eq!(monitor.variance, 0);
    assert_eq!(monitor.last_dt, 16_700);
    assert_eq!(monitor.stable_frames, 0);
    assert_eq!(monitor.cooldown, 2 * SECOND);
}

#[test]
fn ingest_blends_one_sample_into_every_average() {
    let mut monitor = FpsMonitor::default();
    update_fps(&mut monitor, 50_000);
    // 20 fps sample: fast = 60 * 4/5 + 20 / 5, slow = 60 * 19/20 + 20 / 20.
    assert_eq!(monitor.fps_fast, 52_000_000);
    assert_eq!(monitor.fps_slow, 58_000_000);
    // |50_000 - 16_700| / 10
    assert_eq!(monitor.variance, 3_330);
    assert_eq!(monitor.last_dt, 50_000);
    assert_eq!(monitor.cooldown, 1_950_000);
    assert_eq!(monitor.stable_frames, 1);
}

#[test]
fn ingest_rounds_every_average_down() {
    let mut monitor = FpsMonitor::default();
    update_fps(&mut monitor, 16_667);
    assert_eq!(monitor.fps_fast, 59_999_760);
    assert_eq!(monitor.fps_slow, 59_999_940);
    assert_eq!(monitor.variance, 3);
    assert_eq!(monitor.cooldown, 1_983_333);
    let mut monitor = FpsMonitor::default();
    update_fps(&mut monitor, 3);
    assert_eq!(monitor.fps_fast, 66_714_666_666);
    assert_eq!(monitor.fps_slow, 16_723_666_666);
    assert_eq!(monitor.variance, 1_669);
}

#[test]
fn ingest_accumulates_over_several_frames() {
    let mut monitor = FpsMonitor::default();
    for _ in 0..3 {
        update_fps(&mut monitor, 20_000);
    }
    assert_eq!(monitor.fps_fast, 55_120_000);
    assert_eq!(monitor.fps_slow, 58_573_750);
    assert_eq!(monitor.variance, 267);
    assert_eq!(monitor.last_dt, 20_000);
    assert_eq!(monitor.stable_frames, 3);
    assert_eq!(monitor.cooldown, 1_940_000);
}

#[test]
fn ingest_discards_a_zero_duration() {
    let mut monitor = FpsMonitor::default();
    update_fps(&mut monitor, 20_000);
    let before = monitor;
    update_fps(&mut monitor, 0);
    assert_eq!(monitor, before);
    assert_eq!(monitor.fps_fast, before.fps_fast);
    assert_eq!(monitor.fps_slow, before.fps_slow);
    assert_eq!(monitor.variance, before.variance);
    assert_eq!(monitor.stable_frames, before.stable_frames);
}

#[test]
fn ingest_discards_a_duration_above_the_ceiling() {
    let mut monitor = FpsMonitor::default();
    update_fps(&mut monitor, 20_000);
    let before = monitor;
    update_fps(&mut monitor, 5 * SECOND);
    assert_eq!(monitor, before);
    update_fps(&mut monitor, SECOND + 1);
    assert_eq!(monitor, before);
    update_fps(&mut monitor, u64::MAX);
    assert_eq!(monitor, before);
    assert_eq!(monitor.fps_fast, before.fps_fast);
    assert_eq!(monitor.fps_slow, before.fps_slow);
    assert_eq!(monitor.variance, before.variance);
    assert_eq!(monitor.stable_frames, before.stable_frames);
}

#[test]
fn ingest_accepts_the_ceiling_itself() {
    let mut monitor = FpsMonitor::default();
    update_fps(&mut monitor, SECOND);
    assert_eq!(monitor.fps_fast, 48_200_000);
    assert_eq!(monitor.fps_slow, 57_050_000);
    assert_eq!(monitor.variance, 98_330);
    assert_eq!(monitor.last_dt, SECOND);
    assert_eq!(monitor.cooldown, SECOND);
    // The jitter is far above the noise floor, so the run of good frames ends.
    assert_eq!(monitor.stable_frames, 0);
}

#[test]
fn ingest_accepts_the_shortest_duration() {
    let mut monitor = FpsMonitor::default();
    update_fps(&mut monitor, 1);
    assert_eq!(monitor.fps_fast, 200_048_000_000);
    assert_eq!(monitor.fps_slow, 50_057_000_000);
    assert_eq!(monitor.last_dt, 1);
    assert_eq!(monitor.cooldown, 1_999_999);
}

#[test]
fn cooldown_stops_at_zero() {
    let mut monitor = FpsMonitor::default();
    monitor.cooldown = 10_000;
    update_fps(&mut monitor, 16_000);
    assert_eq!(monitor.cooldown, 0);
    update_fps(&mut monitor, 16_000);
    assert_eq!(monitor.cooldown, 0);
    monitor.cooldown = 16_000;
    update_fps(&mut monitor, 16_000);
    assert_eq!(monitor.cooldown, 0);
}

#[test]
fn stable_frames_reset_when_the_fast_average_is_not_above_its_floor() {
    let mut monitor = FpsMonitor::default();
    monitor.stable_frames = 100;
    monitor.fps_fast = 45 * FPS;
    monitor.last_dt = 22_222;
    // 45.0005 fps sample keeps the fast average at 45.0001, just above.
    update_fps(&mut monitor, 22_222);
    assert_eq!(monitor.fps_fast, 45_000_090);
    assert_eq!(monitor.stable_frames, 101);
    monitor.fps_fast = 45 * FPS;
    // A 44.99 fps sample pulls it below the floor.
    update_fps(&mut monitor, 22_227);
    assert!(monitor.fps_fast <= 45 * FPS);
    assert_eq!(monitor.stable_frames, 0);
}

#[test]
fn stable_frames_reset_when_the_jitter_reaches_its_ceiling() {
    let mut monitor = FpsMonitor::default();
    monitor.stable_frames = 100;
    monitor.fps_fast = 100 * FPS;
    monitor.fps_slow = 100 * FPS;
    monitor.variance = 10 * MILLISECOND;
    monitor.last_dt = 10_000;
    // No change in duration: the jitter decays to nine tenths.
    update_fps(&mut monitor, 10_000);
    assert_eq!(monitor.variance, 9_000);
    assert_eq!(monitor.stable_frames, 101);
    monitor.variance = 10_000;
    // A change of 10 ms keeps the jitter at exactly 10 ms, which is not below.
    update_fps(&mut monitor, 20_000);
    assert_eq!(monitor.variance, 10_000);
    assert_eq!(monitor.stable_frames, 0);
}

#[test]
fn stable_frames_saturate() {
    let mut monitor = FpsMonitor::default();
    monitor.stable_frames = u32::MAX - 1;
    update_fps(&mut monitor, 16_667);
    assert_eq!(monitor.stable_frames, u32::MAX);
    update_fps(&mut monitor, 16_667);
    assert_eq!(monitor.stable_frames, u32::MAX);
}

#[test]
fn ingest_never_overflows_on_extreme_state() {
    let mut monitor = FpsMonitor {
        fps_fast: u64::MAX,
        fps_slow: u64::MAX,
        variance: u64::MAX,
        last_dt: u64::MAX,
        stable_frames: u32::MAX,
        cooldown: u64::MAX,
    };
    update_fps(&mut monitor, 1);
    // (u64::MAX * 4 + 10^12) / 5 and (u64::MAX * 19 + 10^12) / 20
    assert_eq!(monitor.fps_fast, 14_757_395_458_967_641_292);
    assert_eq!(monitor.fps_slow, 17_524_406_920_024_074_034);
    // (u64::MAX * 9 + (u64::MAX - 1)) / 10
    assert_eq!(monitor.variance, u64::MAX - 1);
    assert_eq!(monitor.cooldown, u64::MAX - 1);
    assert_eq!(monitor.stable_frames, 0);
}

#[test]
fn averages_stay_within_the_range_of_accepted_samples() {
    let mut monitor = FpsMonitor::default();
    let mut seed: u64 = 0x2545_f491_4f6c_dd1d;
    for _ in 0..20_000 {
        seed ^= seed << 13;
        seed ^= seed >> 7;
        seed ^= seed << 17;
        let dt = seed % (SECOND + 2);
        update_fps(&mut monitor, dt);
        assert!(MIN_FPS <= monitor.fps_fast && monitor.fps_fast <= MAX_FPS);
        assert!(MIN_FPS <= monitor.fps_slow && monitor.fps_slow <= MAX_FPS);
        assert!(monitor.variance <= MAX_SAMPLE);
        assert!(monitor.last_dt <= MAX_SAMPLE);
    }
}
