//! What holds of the governor over whole runs of frames.

use vstd::prelude::*;
use crate::performance::governor::{frame, tick, DOWNGRADE_COOLDOWN, HIGH_JITTER, UPGRADE_COOLDOWN};
use crate::performance::level::{
    lemma_rank_identifies_level, lemma_steps_are_adjacent, QualityChanged, QualityLevel,
};
use crate::performance::monitor::{
    instant_fps, lemma_blend_between, lemma_ingest_stays_in_range, plausible_sample,
    MonitorModel, JITTER_SPAN, SLOW_SPAN,
};
use crate::performance::settings::SettingsModel;

verus! {

/// Where a run of frames has led, and every notification sent on the way.
pub struct Trace {
    pub monitor: MonitorModel,
    pub settings: SettingsModel,
    pub events: Seq<QualityChanged>,
}

/// Runs the host loop over `samples`, one frame per sample, in order.
pub open spec fn run(monitor: MonitorModel, settings: SettingsModel, samples: Seq<nat>) -> Trace
    decreases samples.len(),
{
    if samples.len() == 0 {
        Trace { monitor, settings, events: Seq::empty() }
    } else {
        let before = run(monitor, settings, samples.drop_last());
        let last = frame(before.monitor, before.settings, samples.last());
        Trace {
            monitor: last.monitor,
            settings: last.settings,
            events: match last.event {
                Some(event) => before.events.push(event),
                None => before.events,
            },
        }
    }
}

/// Total duration of the plausible samples, the only ones the monitor counts.
pub open spec fn accepted_time(samples: Seq<nat>) -> nat
    decreases samples.len(),
{
    if samples.len() == 0 {
        0
    } else if plausible_sample(samples.last()) {
        accepted_time(samples.drop_last()) + samples.last()
    } else {
        accepted_time(samples.drop_last())
    }
}

/// The monitor has settled on a constant feed of frames of duration `dt`:
/// that was the duration of the latest frame, the jitter is no higher than
/// the stutter mark, and the slow average lies strictly between the two
/// thresholds.
pub open spec fn settled(monitor: MonitorModel, settings: SettingsModel, dt: nat) -> bool {
    &&& monitor.last_dt == dt
    &&& monitor.variance <= HIGH_JITTER
    &&& settings.downgrade_threshold < monitor.fps_slow < settings.upgrade_threshold
}

/// A feed of `frames` frames that each took `dt`.
pub open spec fn constant_feed(dt: nat, frames: nat) -> Seq<nat> {
    Seq::new(frames, |i: int| dt)
}

/// The level after `frames` frames of a constant feed.
pub open spec fn level_after(
    monitor: MonitorModel,
    settings: SettingsModel,
    dt: nat,
    frames: nat,
) -> QualityLevel {
    run(monitor, settings, constant_feed(dt, frames)).settings.level
}

/// Under a constant feed the level never changes after frame `from`.
pub open spec fn rests_from(
    monitor: MonitorModel,
    settings: SettingsModel,
    dt: nat,
    from: nat,
) -> bool {
    forall|frames: nat|
        frames >= from ==> #[trigger] level_after(monitor, settings, dt, frames) == level_after(
            monitor,
            settings,
            dt,
            from,
        )
}

/// A run is one frame after the run over all samples but the last.
pub proof fn lemma_run_unfolds(
    monitor: MonitorModel,
    settings: SettingsModel,
    samples: Seq<nat>,
    k: int,
)
    requires
        0 <= k < samples.len(),
    ensures
        ({
            let before = run(monitor, settings, samples.take(k));
            let after = run(monitor, settings, samples.take(k + 1));
            let last = frame(before.monitor, before.settings, samples[k]);
            &&& after.monitor == last.monitor
            &&& after.settings == last.settings
            &&& after.events == match last.event {
                Some(event) => before.events.push(event),
                None => before.events,
            }
        }),
{
    assert(samples.take(k + 1).drop_last() == samples.take(k));
    assert(samples.take(k + 1).last() == samples[k]);
}

/// In a single frame the level stays or moves to a direct neighbour, and a
/// notification is sent exactly when it moves, naming the level left and the
/// level entered. The thresholds never move.
pub proof fn law_frame_moves_one_step(monitor: MonitorModel, settings: SettingsModel, dt: nat)
    ensures
        ({
            let after = frame(monitor, settings, dt);
            &&& settings.level.within_one_step(after.settings.level)
            &&& after.event is None <==> after.settings.level == settings.level
            &&& after.event is None ==> after.settings == settings
            &&& after.event is Some ==> after.event == Some(
                QualityChanged { old: settings.level, new: after.settings.level },
            )
            &&& after.settings.downgrade_threshold == settings.downgrade_threshold
            &&& after.settings.upgrade_threshold == settings.upgrade_threshold
        }),
{
    lemma_steps_are_adjacent(settings.level);
}

/// Over any run of frames, from any state, the level after one more frame is
/// the level before it or a direct neighbour of it: no level is ever skipped.
pub proof fn law_level_never_skips(
    monitor: MonitorModel,
    settings: SettingsModel,
    samples: Seq<nat>,
    k: int,
)
    requires
        0 <= k < samples.len(),
    ensures
        run(monitor, settings, samples.take(k)).settings.level.within_one_step(
            run(monitor, settings, samples.take(k + 1)).settings.level,
        ),
{
    let before = run(monitor, settings, samples.take(k));
    lemma_run_unfolds(monitor, settings, samples, k);
    law_frame_moves_one_step(before.monitor, before.settings, samples[k]);
}

/// Every notification of a run names two different levels that are direct
/// neighbours, and a run sends no more notifications than it has frames.
pub proof fn law_events_join_neighbours(
    monitor: MonitorModel,
    settings: SettingsModel,
    samples: Seq<nat>,
)
    ensures
        run(monitor, settings, samples).events.len() <= samples.len(),
        forall|i: int|
            0 <= i < run(monitor, settings, samples).events.len() ==> {
                let event = #[trigger] run(monitor, settings, samples).events[i];
                event.old != event.new && event.old.within_one_step(event.new)
            },
    decreases samples.len(),
{
    if samples.len() > 0 {
        let before = run(monitor, settings, samples.drop_last());
        law_events_join_neighbours(monitor, settings, samples.drop_last());
        law_frame_moves_one_step(before.monitor, before.settings, samples.last());
    }
}

/// While the cooldown is longer than the time of all accepted frames, the
/// governor does nothing: the settings stay as they are, nothing is
/// announced, and the cooldown has run down by exactly the accepted time.
pub proof fn law_cooldown_blocks_transitions(
    monitor: MonitorModel,
    settings: SettingsModel,
    samples: Seq<nat>,
)
    requires
        accepted_time(samples) < monitor.cooldown,
    ensures
        run(monitor, settings, samples).settings == settings,
        run(monitor, settings, samples).events.len() == 0,
        run(monitor, settings, samples).monitor.cooldown == monitor.cooldown - accepted_time(
            samples,
        ),
    decreases samples.len(),
{
    if samples.len() > 0 {
        law_cooldown_blocks_transitions(monitor, settings, samples.drop_last());
    }
}

/// A transition starts the cooldown of its direction, three seconds after a
/// downgrade and five after an upgrade, and until frames of that total time
/// have been accepted the level stays where the transition put it.
pub proof fn law_transition_is_followed_by_cooldown(
    monitor: MonitorModel,
    settings: SettingsModel,
    samples: Seq<nat>,
)
    requires
        tick(monitor, settings).event is Some,
        accepted_time(samples) < tick(monitor, settings).monitor.cooldown,
    ensures
        ({
            let moved = tick(monitor, settings);
            let after = run(moved.monitor, moved.settings, samples);
            &&& moved.monitor.cooldown == if moved.settings.level == settings.level.lower() {
                DOWNGRADE_COOLDOWN
            } else {
                UPGRADE_COOLDOWN
            }
            &&& after.settings.level == moved.settings.level
            &&& after.events.len() == 0
        }),
{
    let moved = tick(monitor, settings);
    lemma_steps_are_adjacent(settings.level);
    law_cooldown_blocks_transitions(moved.monitor, moved.settings, samples);
}

/// Once the monitor has settled on a constant frame duration whose rate lies
/// strictly between the two thresholds, it stays settled, and however long
/// that feed goes on the level never changes again.
pub proof fn law_level_rests_inside_band(
    monitor: MonitorModel,
    settings: SettingsModel,
    dt: nat,
    frames: nat,
)
    requires
        plausible_sample(dt),
        settings.downgrade_threshold < instant_fps(dt) < settings.upgrade_threshold,
        settled(monitor, settings, dt),
    ensures
        ({
            let after = run(monitor, settings, Seq::new(frames, |i: int| dt));
            &&& after.settings == settings
            &&& after.events.len() == 0
            &&& settled(after.monitor, settings, dt)
        }),
    decreases frames,
{
    let samples = Seq::new(frames, |i: int| dt);
    if frames > 0 {
        let shorter = Seq::new((frames - 1) as nat, |i: int| dt);
        assert(samples.drop_last() == shorter);
        law_level_rests_inside_band(monitor, settings, dt, (frames - 1) as nat);
        let before = run(monitor, settings, shorter).monitor;
        lemma_blend_between(before.fps_slow, instant_fps(dt), SLOW_SPAN as nat);
        lemma_blend_between(before.variance, 0, JITTER_SPAN as nat);
    }
}

/// The averages never leave the range that accepted samples span: if both
/// frame rates and the jitter are in range before a run, they are after it.
pub proof fn law_averages_stay_in_range(
    monitor: MonitorModel,
    settings: SettingsModel,
    samples: Seq<nat>,
)
    requires
        monitor.in_range(),
    ensures
        run(monitor, settings, samples).monitor.in_range(),
    decreases samples.len(),
{
    if samples.len() > 0 {
        law_averages_stay_in_range(monitor, settings, samples.drop_last());
        let before = run(monitor, settings, samples.drop_last()).monitor;
        lemma_ingest_stays_in_range(before, samples.last());
    }
}

/// The tuning parameters follow the level, and the thresholds stay: settings
/// whose parameters are those of their level remain so over any run.
pub proof fn law_tuning_follows_level(
    monitor: MonitorModel,
    settings: SettingsModel,
    samples: Seq<nat>,
)
    requires
        settings.tuned(),
    ensures
        run(monitor, settings, samples).settings.tuned(),
        run(monitor, settings, samples).settings.downgrade_threshold
            == settings.downgrade_threshold,
        run(monitor, settings, samples).settings.upgrade_threshold == settings.upgrade_threshold,
    decreases samples.len(),
{
    if samples.len() > 0 {
        law_tuning_follows_level(monitor, settings, samples.drop_last());
    }
}


/// A run over two feeds in a row ends where the run over the second feed
/// ends when it starts from where the first one led.
pub proof fn lemma_run_continues(
    monitor: MonitorModel,
    settings: SettingsModel,
    first: Seq<nat>,
    second: Seq<nat>,
)
    ensures
        ({
            let midway = run(monitor, settings, first);
            let whole = run(monitor, settings, first + second);
            let rest = run(midway.monitor, midway.settings, second);
            &&& whole.monitor == rest.monitor
            &&& whole.settings == rest.settings
            &&& whole.events == midway.events + rest.events
        }),
    decreases second.len(),
{
    let midway = run(monitor, settings, first);
    if second.len() == 0 {
        assert(first + second == first);
        assert(midway.events + Seq::<QualityChanged>::empty() == midway.events);
    } else {
        assert((first + second).drop_last() == first + second.drop_last());
        lemma_run_continues(monitor, settings, first, second.drop_last());
        let before = run(midway.monitor, midway.settings, second.drop_last());
        let last = frame(before.monitor, before.settings, second.last());
        if let Some(event) = last.event {
            assert((midway.events + before.events).push(event) == midway.events
                + before.events.push(event));
        }
    }
}

/// While neither the slow average nor the rate of the feed is above the
/// upgrade threshold, the level is never raised: after any number of frames
/// the slow average is still not above the threshold and the level is the
/// one before or a lower one.
proof fn lemma_no_upgrade_without_headroom(
    monitor: MonitorModel,
    settings: SettingsModel,
    dt: nat,
    frames: nat,
)
    requires
        plausible_sample(dt),
        instant_fps(dt) <= settings.upgrade_threshold,
        monitor.fps_slow <= settings.upgrade_threshold,
    ensures
        ({
            let after = run(monitor, settings, constant_feed(dt, frames));
            &&& after.monitor.fps_slow <= settings.upgrade_threshold
            &&& after.settings.upgrade_threshold == settings.upgrade_threshold
            &&& after.settings.level.rank() <= settings.level.rank()
        }),
    decreases frames,
{
    if frames > 0 {
        let shorter = constant_feed(dt, (frames - 1) as nat);
        assert(constant_feed(dt, frames).drop_last() == shorter);
        lemma_no_upgrade_without_headroom(monitor, settings, dt, (frames - 1) as nat);
        let before = run(monitor, settings, shorter);
        lemma_blend_between(before.monitor.fps_slow, instant_fps(dt), SLOW_SPAN as nat);
        lemma_steps_are_adjacent(before.settings.level);
    }
}

/// A constant feed whose rate is not above the upgrade threshold brings the
/// slow average down to the threshold or below it within finitely many
/// frames. Returns such a number of frames.
proof fn lemma_headroom_runs_out(monitor: MonitorModel, settings: SettingsModel, dt: nat) -> (frames:
    nat)
    requires
        plausible_sample(dt),
        instant_fps(dt) <= settings.upgrade_threshold,
    ensures
        run(monitor, settings, constant_feed(dt, frames)).monitor.fps_slow
            <= settings.upgrade_threshold,
        run(monitor, settings, constant_feed(dt, frames)).settings.upgrade_threshold
            == settings.upgrade_threshold,
    decreases monitor.fps_slow,
{
    if monitor.fps_slow <= settings.upgrade_threshold {
        0
    } else {
        let one = constant_feed(dt, 1);
        assert(one.drop_last().len() == 0 && one.last() == dt);
        assert(run(monitor, settings, one.drop_last()).monitor == monitor);
        assert(run(monitor, settings, one.drop_last()).settings == settings);
        let next = frame(monitor, settings, dt);
        assert(run(monitor, settings, one).monitor == next.monitor);
        assert(run(monitor, settings, one).settings == next.settings);
        lemma_blend_between(monitor.fps_slow, instant_fps(dt), SLOW_SPAN as nat);
        let more = lemma_headroom_runs_out(next.monitor, next.settings, dt);
        assert(constant_feed(dt, 1 + more) == one + constant_feed(dt, more));
        lemma_run_continues(monitor, settings, one, constant_feed(dt, more));
        1 + more
    }
}

/// Once the level can no longer be raised it can only fall, and it can fall
/// only so often. Returns a number of frames after which it never changes.
proof fn lemma_falling_level_comes_to_rest(
    monitor: MonitorModel,
    settings: SettingsModel,
    dt: nat,
) -> (from: nat)
    requires
        plausible_sample(dt),
        instant_fps(dt) <= settings.upgrade_threshold,
        monitor.fps_slow <= settings.upgrade_threshold,
    ensures
        rests_from(monitor, settings, dt, from),
    decreases settings.level.rank(),
{
    assert(constant_feed(dt, 0) == Seq::<nat>::empty());
    if forall|frames: nat| #[trigger] level_after(monitor, settings, dt, frames) == settings.level {
        0
    } else {
        let moved = choose|frames: nat| #[trigger]
            level_after(monitor, settings, dt, frames) != settings.level;
        let midway = run(monitor, settings, constant_feed(dt, moved));
        lemma_no_upgrade_without_headroom(monitor, settings, dt, moved);
        lemma_rank_identifies_level(midway.settings.level, settings.level);
        let more = lemma_falling_level_comes_to_rest(midway.monitor, midway.settings, dt);
        let from = moved + more;
        assert forall|frames: nat| frames >= from implies #[trigger] level_after(
            monitor,
            settings,
            dt,
            frames,
        ) == level_after(monitor, settings, dt, from) by {
            let rest = (frames - moved) as nat;
            assert(constant_feed(dt, frames) == constant_feed(dt, moved) + constant_feed(dt, rest));
            assert(constant_feed(dt, from) == constant_feed(dt, moved) + constant_feed(dt, more));
            lemma_run_continues(monitor, settings, constant_feed(dt, moved), constant_feed(dt, rest));
            lemma_run_continues(monitor, settings, constant_feed(dt, moved), constant_feed(dt, more));
            assert(level_after(midway.monitor, midway.settings, dt, rest) == level_after(
                midway.monitor,
                midway.settings,
                dt,
                more,
            ));
        }
        from
    }
}

/// No endless flapping: under a constant feed of plausible frames whose rate
/// is not above the upgrade threshold, and so for every rate between the two
/// thresholds, the level changes only finitely often, whatever state the
/// feed starts in. From some frame on it never changes again.
pub proof fn law_constant_feed_settles(monitor: MonitorModel, settings: SettingsModel, dt: nat)
    requires
        plausible_sample(dt),
        instant_fps(dt) <= settings.upgrade_threshold,
    ensures
        exists|from: nat| rests_from(monitor, settings, dt, from),
{
    let lead = lemma_headroom_runs_out(monitor, settings, dt);
    let midway = run(monitor, settings, constant_feed(dt, lead));
    let more = lemma_falling_level_comes_to_rest(midway.monitor, midway.settings, dt);
    let from = lead + more;
    assert forall|frames: nat| frames >= from implies #[trigger] level_after(
        monitor,
        settings,
        dt,
        frames,
    ) == level_after(monitor, settings, dt, from) by {
        let rest = (frames - lead) as nat;
        assert(constant_feed(dt, frames) == constant_feed(dt, lead) + constant_feed(dt, rest));
        assert(constant_feed(dt, from) == constant_feed(dt, lead) + constant_feed(dt, more));
        lemma_run_continues(monitor, settings, constant_feed(dt, lead), constant_feed(dt, rest));
        lemma_run_continues(monitor, settings, constant_feed(dt, lead), constant_feed(dt, more));
        assert(level_after(midway.monitor, midway.settings, dt, rest) == level_after(
            midway.monitor,
            midway.settings,
            dt,
            more,
        ));
    }
    assert(rests_from(monitor, settings, dt, from));
}

} // verus!
