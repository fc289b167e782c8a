//! Frame timing monitor: turns the raw duration of each frame into smoothed
//! signals that the governor can act on.
//!
//! Durations are whole microseconds. Frame rates are held in millionths of a
//! frame per second, so `60 * FPS` is sixty frames per second. Every moving
//! average is rounded down to a whole unit.

use vstd::prelude::*;

verus! {

/// One second, in microseconds.
pub const SECOND: u64 = 1_000_000;

/// One millisecond, in microseconds.
pub const MILLISECOND: u64 = 1_000;

/// One frame per second, in the unit frame rates are held in.
pub const FPS: u64 = 1_000_000;

/// Longest frame duration that is taken for a real frame. Anything longer is
/// a debugger pause or a sleeping device.
pub const MAX_SAMPLE: u64 = SECOND;

/// The fast average gives a new sample one part in this many.
pub const FAST_SPAN: u64 = 5;

/// The slow average gives a new sample one part in this many.
pub const SLOW_SPAN: u64 = 20;

/// The jitter average gives a new sample one part in this many.
pub const JITTER_SPAN: u64 = 10;

/// A frame counts as good only while the fast average is above this rate.
pub const STABLE_FPS_FLOOR: u64 = 45 * FPS;

/// A frame counts as good only while the jitter is below this duration.
pub const STABLE_JITTER_CEILING: u64 = 10 * MILLISECOND;

/// Frame rate both averages start at.
pub const STARTUP_FPS: u64 = 60 * FPS;

/// Frame duration the jitter estimate starts from.
pub const STARTUP_FRAME: u64 = 16_700;

/// Time after start-up during which the governor does not move the level.
pub const WARMUP_COOLDOWN: u64 = 2 * SECOND;

/// Lowest frame rate an accepted sample can report.
pub const MIN_FPS: u64 = FPS;

/// Highest frame rate an accepted sample can report.
pub const MAX_FPS: u64 = FPS * SECOND;

/// A sample is plausible when it is a positive duration no longer than the
/// sanity ceiling.
pub open spec fn plausible_sample(dt: nat) -> bool {
    0 < dt <= MAX_SAMPLE
}

/// Frame rate that a single frame of duration `dt` corresponds to.
pub open spec fn instant_fps(dt: nat) -> nat
    recommends
        dt > 0,
{
    (FPS * SECOND / dt as int) as nat
}

/// Exponential moving average step: the old average keeps `span - 1` parts
/// and the new sample gets one part, rounded down.
pub open spec fn blend(average: nat, sample: nat, span: nat) -> nat
    recommends
        span > 0,
{
    ((average * (span - 1) + sample) / span as int) as nat
}

/// Distance between two durations.
pub open spec fn gap(a: nat, b: nat) -> nat {
    if a >= b {
        (a - b) as nat
    } else {
        (b - a) as nat
    }
}

/// Mathematical state of the frame timing monitor.
pub struct MonitorModel {
    /// Fast-moving average frame rate.
    pub fps_fast: nat,
    /// Slow-moving average frame rate, the signal transitions are decided on.
    pub fps_slow: nat,
    /// Moving average of the change in duration from one frame to the next.
    pub variance: nat,
    /// Duration of the latest accepted frame.
    pub last_dt: nat,
    /// Consecutive good frames up to now.
    pub stable_frames: nat,
    /// Time left until the governor may consider another transition.
    pub cooldown: nat,
}

impl MonitorModel {
    /// The monitor at start-up.
    pub open spec fn startup() -> MonitorModel {
        MonitorModel {
            fps_fast: STARTUP_FPS as nat,
            fps_slow: STARTUP_FPS as nat,
            variance: 0,
            last_dt: STARTUP_FRAME as nat,
            stable_frames: 0,
            cooldown: WARMUP_COOLDOWN as nat,
        }
    }

    /// The frame that follows an accepted sample counts as good when the
    /// fast average is above its floor and the jitter below its ceiling.
    pub open spec fn good_frame(fps_fast: nat, variance: nat) -> bool {
        fps_fast > STABLE_FPS_FLOOR && variance < STABLE_JITTER_CEILING
    }

    /// The monitor after one frame of duration `dt`. An implausible sample
    /// leaves it as it is.
    pub open spec fn ingest(self, dt: nat) -> MonitorModel {
        if !plausible_sample(dt) {
            self
        } else {
            let fps_fast = blend(self.fps_fast, instant_fps(dt), FAST_SPAN as nat);
            let variance = blend(self.variance, gap(dt, self.last_dt), JITTER_SPAN as nat);
            MonitorModel {
                fps_fast,
                fps_slow: blend(self.fps_slow, instant_fps(dt), SLOW_SPAN as nat),
                variance,
                last_dt: dt,
                stable_frames: if Self::good_frame(fps_fast, variance) {
                    if self.stable_frames < u32::MAX {
                        self.stable_frames + 1
                    } else {
                        self.stable_frames
                    }
                } else {
                    0
                },
                cooldown: if self.cooldown >= dt {
                    (self.cooldown - dt) as nat
                } else {
                    0
                },
            }
        }
    }

    /// Both averages lie in the range of frame rates that accepted samples
    /// can report, and the jitter within the range of accepted durations.
    pub open spec fn in_range(self) -> bool {
        &&& MIN_FPS <= self.fps_fast <= MAX_FPS
        &&& MIN_FPS <= self.fps_slow <= MAX_FPS
        &&& self.variance <= MAX_SAMPLE
        &&& self.last_dt <= MAX_SAMPLE
    }
}

/// Frame timing monitor.
#[derive(Clone, Copy, PartialEq, Eq, Debug, Structural)]
pub struct FpsMonitor {
    /// Fast-moving average frame rate (a new sample weighs one fifth).
    pub fps_fast: u64,
    /// Slow-moving average frame rate (a new sample weighs one twentieth).
    pub fps_slow: u64,
    /// Jitter: moving average of the change in frame duration.
    pub variance: u64,
    /// Duration of the latest accepted frame.
    pub last_dt: u64,
    /// Consecutive good frames up to now.
    pub stable_frames: u32,
    /// Time left until the governor may consider another transition.
    pub cooldown: u64,
}

impl View for FpsMonitor {
    type V = MonitorModel;

    open spec fn view(&self) -> MonitorModel {
        MonitorModel {
            fps_fast: self.fps_fast as nat,
            fps_slow: self.fps_slow as nat,
            variance: self.variance as nat,
            last_dt: self.last_dt as nat,
            stable_frames: self.stable_frames as nat,
            cooldown: self.cooldown as nat,
        }
    }
}

impl Default for FpsMonitor {
    fn default() -> (monitor: Self)
        ensures
            monitor@ == MonitorModel::startup(),
            monitor@.in_range(),
    {
        FpsMonitor {
            fps_fast: STARTUP_FPS,
            fps_slow: STARTUP_FPS,
            variance: 0,
            last_dt: STARTUP_FRAME,
            stable_frames: 0,
            cooldown: WARMUP_COOLDOWN,
        }
    }
}

/// A blended average lies between the old average and the sample.
pub proof fn lemma_blend_between(average: nat, sample: nat, span: nat)
    requires
        span > 0,
    ensures
        average <= sample ==> average <= blend(average, sample, span) <= sample,
        sample <= average ==> sample <= blend(average, sample, span) <= average,
{
    let total = average * (span - 1) + sample;
    let low = if average <= sample { average } else { sample };
    let high = if average <= sample { sample } else { average };
    assert(low * span <= total <= high * span) by (nonlinear_arith)
        requires
            span > 0,
            low <= average <= high,
            low <= sample <= high,
            total == average * (span - 1) + sample,
    ;
    assert(low <= total / span as int <= high) by (nonlinear_arith)
        requires
            span > 0,
            low * span <= total <= high * span,
    ;
}

/// A plausible sample reports a frame rate between `MIN_FPS` and `MAX_FPS`.
pub proof fn lemma_instant_fps_in_range(dt: nat)
    requires
        plausible_sample(dt),
    ensures
        MIN_FPS <= instant_fps(dt) <= MAX_FPS,
{
    let top: int = 1_000_000_000_000;
    assert(1_000_000 <= top / dt as int <= top) by (nonlinear_arith)
        requires
            0 < dt <= 1_000_000,
            top == 1_000_000_000_000,
    ;
}

/// One ingested sample keeps the averages in range.
pub proof fn lemma_ingest_stays_in_range(monitor: MonitorModel, dt: nat)
    requires
        monitor.in_range(),
    ensures
        monitor.ingest(dt).in_range(),
{
    if plausible_sample(dt) {
        lemma_instant_fps_in_range(dt);
        lemma_blend_between(monitor.fps_fast, instant_fps(dt), FAST_SPAN as nat);
        lemma_blend_between(monitor.fps_slow, instant_fps(dt), SLOW_SPAN as nat);
        lemma_blend_between(monitor.variance, gap(dt, monitor.last_dt), JITTER_SPAN as nat);
    }
}

fn blended(average: u64, sample: u64, span: u64) -> (mixed: u64)
    requires
        0 < span <= 1_000,
    ensures
        mixed == blend(average as nat, sample as nat, span as nat),
{
    proof {
        lemma_blend_between(average as nat, sample as nat, span as nat);
        assert(average * (span - 1) <= u64::MAX * 1_000) by (nonlinear_arith)
            requires
                0 < span <= 1_000,
                average <= u64::MAX,
        ;
    }
    let kept: u128 = (average as u128) * ((span - 1) as u128);
    let mixed: u128 = (kept + sample as u128) / (span as u128);
    mixed as u64
}

/// Ingests the duration of the latest frame.
///
/// A duration of zero, or one above `MAX_SAMPLE`, is discarded: the monitor
/// stays exactly as it was. Otherwise both frame rate averages and the
/// jitter move towards the new sample, the cooldown runs down by `dt`
/// (stopping at zero), and the count of consecutive good frames grows by one
/// or starts again from zero.
pub fn update_fps(monitor: &mut FpsMonitor, dt: u64)
    ensures
        final(monitor)@ == old(monitor)@.ingest(dt as nat),
        !plausible_sample(dt as nat) ==> *final(monitor) == *old(monitor),
        old(monitor)@.in_range() ==> final(monitor)@.in_range(),
{
    proof {
        if monitor@.in_range() {
            lemma_ingest_stays_in_range(monitor@, dt as nat);
        }
    }
    if dt == 0 || dt > MAX_SAMPLE {
        return ;
    }
    let fps: u64 = MAX_FPS / dt;
    let change: u64 = if dt >= monitor.last_dt {
        dt - monitor.last_dt
    } else {
        monitor.last_dt - dt
    };
    monitor.fps_fast = blended(monitor.fps_fast, fps, FAST_SPAN);
    monitor.fps_slow = blended(monitor.fps_slow, fps, SLOW_SPAN);
    monitor.variance = blended(monitor.variance, change, JITTER_SPAN);
    monitor.last_dt = dt;
    monitor.cooldown = if monitor.cooldown >= dt {
        monitor.cooldown - dt
    } else {
        0
    };
    if monitor.fps_fast > STABLE_FPS_FLOOR && monitor.variance < STABLE_JITTER_CEILING {
        if monitor.stable_frames < u32::MAX {
            monitor.stable_frames = monitor.stable_frames + 1;
        }
    } else {
        monitor.stable_frames = 0;
    }
}

} // verus!
