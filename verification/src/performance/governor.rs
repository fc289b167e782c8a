//! Quality governor: decides once per frame whether the quality level moves,
//! with hysteresis between the two thresholds and a cooldown after every move.

use vstd::prelude::*;
use crate::performance::level::{lemma_steps_are_adjacent, QualityChanged, QualityLevel};
use crate::performance::monitor::{update_fps, FpsMonitor, MonitorModel, FPS, MILLISECOND, SECOND};
use crate::performance::settings::{QualitySettings, SettingsModel};

verus! {

/// Jitter above this duration counts as stutter.
pub const HIGH_JITTER: u64 = 15 * MILLISECOND;

/// While the frames stutter, the level is lowered as soon as the slow average
/// is below this rate, whatever the downgrade threshold is.
pub const JITTER_FPS_FLOOR: u64 = 40 * FPS;

/// The level is raised only after more than this many consecutive good frames.
pub const UPGRADE_STABLE_FRAMES: u32 = 240;

/// Time the governor rests after lowering the level.
pub const DOWNGRADE_COOLDOWN: u64 = 3 * SECOND;

/// Time the governor rests after raising the level.
pub const UPGRADE_COOLDOWN: u64 = 5 * SECOND;

/// What the governor does with the level in one frame.
pub enum Verdict {
    Hold,
    Downgrade,
    Upgrade,
}

/// What one evaluation of the governor leaves behind.
pub struct Outcome {
    pub monitor: MonitorModel,
    pub settings: SettingsModel,
    pub event: Option<QualityChanged>,
}

/// Load must be shed: the slow average is below the downgrade threshold, or
/// the frames stutter while the slow average is below the jitter floor.
pub open spec fn downgrade_due(monitor: MonitorModel, settings: SettingsModel) -> bool {
    ||| monitor.fps_slow < settings.downgrade_threshold
    ||| (monitor.variance > HIGH_JITTER && monitor.fps_slow < JITTER_FPS_FLOOR)
}

/// Fidelity may be raised: no load has to be shed, the run of good frames is
/// long enough, and the slow average is above the upgrade threshold.
pub open spec fn upgrade_due(monitor: MonitorModel, settings: SettingsModel) -> bool {
    &&& !downgrade_due(monitor, settings)
    &&& monitor.stable_frames > UPGRADE_STABLE_FRAMES
    &&& monitor.fps_slow > settings.upgrade_threshold
}

/// The decision of one frame. Nothing is decided during cooldown; shedding
/// load is considered before raising fidelity; at either end of the order a
/// step that would leave it is not taken.
pub open spec fn verdict(monitor: MonitorModel, settings: SettingsModel) -> Verdict {
    if monitor.cooldown > 0 {
        Verdict::Hold
    } else if downgrade_due(monitor, settings) {
        if settings.level != QualityLevel::Potato {
            Verdict::Downgrade
        } else {
            Verdict::Hold
        }
    } else if upgrade_due(monitor, settings) && settings.level != QualityLevel::Ultra {
        Verdict::Upgrade
    } else {
        Verdict::Hold
    }
}

/// The state after a transition to `level` that is followed by `cooldown`:
/// the run of good frames starts over, the new level's tuning is in force,
/// and the change is announced once.
pub open spec fn transition(
    monitor: MonitorModel,
    settings: SettingsModel,
    level: QualityLevel,
    cooldown: nat,
) -> Outcome {
    Outcome {
        monitor: MonitorModel { cooldown, stable_frames: 0, ..monitor },
        settings: settings.apply_level(level),
        event: Some(QualityChanged { old: settings.level, new: level }),
    }
}

/// One evaluation of the governor.
pub open spec fn tick(monitor: MonitorModel, settings: SettingsModel) -> Outcome {
    match verdict(monitor, settings) {
        Verdict::Hold => Outcome { monitor, settings, event: None },
        Verdict::Downgrade => transition(
            monitor,
            settings,
            settings.level.lower(),
            DOWNGRADE_COOLDOWN as nat,
        ),
        Verdict::Upgrade => transition(
            monitor,
            settings,
            settings.level.higher(),
            UPGRADE_COOLDOWN as nat,
        ),
    }
}

/// One frame of the host loop: the monitor ingests the frame's duration,
/// then the governor is evaluated.
pub open spec fn frame(monitor: MonitorModel, settings: SettingsModel, dt: nat) -> Outcome {
    tick(monitor.ingest(dt), settings)
}

/// Evaluates the governor once, after the monitor has ingested the latest
/// frame.
///
/// During cooldown nothing happens. Otherwise the level moves one step down
/// when load must be shed, or else one step up when fidelity may be raised.
/// A move puts the new level's tuning in force, starts the cooldown of its
/// direction, resets the run of good frames, and is returned as the one
/// notification of that transition. Without a move nothing changes and
/// nothing is returned.
pub fn auto_adjust_quality(monitor: &mut FpsMonitor, settings: &mut QualitySettings) -> (event:
    Option<QualityChanged>)
    ensures
        final(monitor)@ == tick(old(monitor)@, old(settings)@).monitor,
        final(settings)@ == tick(old(monitor)@, old(settings)@).settings,
        event == tick(old(monitor)@, old(settings)@).event,
        event is None ==> *final(monitor) == *old(monitor) && *final(settings) == *old(settings),
        old(settings).level.within_one_step(final(settings).level),
        old(monitor)@.in_range() ==> final(monitor)@.in_range(),
        old(settings)@.tuned() ==> final(settings)@.tuned(),
        old(settings)@.has_band() ==> final(settings)@.has_band(),
{
    proof {
        lemma_steps_are_adjacent(settings.level);
    }
    if monitor.cooldown > 0 {
        return None;
    }
    let fps: u64 = monitor.fps_slow;
    let jitter: bool = monitor.variance > HIGH_JITTER;
    let current = settings.level;
    if fps < settings.downgrade_threshold || (jitter && fps < JITTER_FPS_FLOOR) {
        let new_level = current.step_down();
        if new_level != current {
            settings.apply_level(new_level);
            monitor.cooldown = DOWNGRADE_COOLDOWN;
            monitor.stable_frames = 0;
            return Some(QualityChanged { old: current, new: new_level });
        }
    } else if monitor.stable_frames > UPGRADE_STABLE_FRAMES && fps > settings.upgrade_threshold {
        let new_level = current.step_up();
        if new_level != current {
            settings.apply_level(new_level);
            monitor.cooldown = UPGRADE_COOLDOWN;
            monitor.stable_frames = 0;
            return Some(QualityChanged { old: current, new: new_level });
        }
    }
    None
}

/// Runs one frame of the host loop: ingests `dt`, then evaluates the
/// governor. Returns the notification of the transition, if one was made.
pub fn advance_frame(monitor: &mut FpsMonitor, settings: &mut QualitySettings, dt: u64) -> (event:
    Option<QualityChanged>)
    ensures
        final(monitor)@ == frame(old(monitor)@, old(settings)@, dt as nat).monitor,
        final(settings)@ == frame(old(monitor)@, old(settings)@, dt as nat).settings,
        event == frame(old(monitor)@, old(settings)@, dt as nat).event,
        old(settings).level.within_one_step(final(settings).level),
        old(monitor)@.in_range() ==> final(monitor)@.in_range(),
        old(settings)@.tuned() ==> final(settings)@.tuned(),
        old(settings)@.has_band() ==> final(settings)@.has_band(),
{
    update_fps(monitor, dt);
    auto_adjust_quality(monitor, settings)
}

} // verus!
