//! Quality settings: the current level, the tuning parameters that belong to
//! it, and the two frame rate thresholds of the governor.

use vstd::prelude::*;
use crate::performance::level::QualityLevel;
use crate::performance::monitor::{FPS, SECOND};

verus! {

/// The slow average must drop below this rate before the level is lowered.
pub const DEFAULT_DOWNGRADE_THRESHOLD: u64 = 28 * FPS;

/// The slow average must exceed this rate before the level is raised.
pub const DEFAULT_UPGRADE_THRESHOLD: u64 = 55 * FPS;

/// Mathematical state of the quality settings.
pub struct SettingsModel {
    pub level: QualityLevel,
    /// Share of a base particle count that is spawned, in percent.
    pub particle_multiplier: nat,
    /// Strength of optional effects, in percent.
    pub effect_intensity: nat,
    /// Most dynamic lights that may be lit at once.
    pub max_lights: nat,
    /// How often materials are refreshed, in hertz.
    pub material_update_hz: nat,
    pub downgrade_threshold: nat,
    pub upgrade_threshold: nat,
}

impl SettingsModel {
    /// Settings at start-up: the given level with its tuning parameters and
    /// the default thresholds.
    pub open spec fn startup(level: QualityLevel) -> SettingsModel {
        SettingsModel {
            level,
            particle_multiplier: level.tuning().particle_multiplier,
            effect_intensity: level.tuning().effect_intensity,
            max_lights: level.tuning().max_lights,
            material_update_hz: level.tuning().material_update_hz,
            downgrade_threshold: DEFAULT_DOWNGRADE_THRESHOLD as nat,
            upgrade_threshold: DEFAULT_UPGRADE_THRESHOLD as nat,
        }
    }

    /// The settings with `level` in force: the level and its four tuning
    /// parameters are replaced, the thresholds stay.
    pub open spec fn apply_level(self, level: QualityLevel) -> SettingsModel {
        SettingsModel {
            level,
            particle_multiplier: level.tuning().particle_multiplier,
            effect_intensity: level.tuning().effect_intensity,
            max_lights: level.tuning().max_lights,
            material_update_hz: level.tuning().material_update_hz,
            downgrade_threshold: self.downgrade_threshold,
            upgrade_threshold: self.upgrade_threshold,
        }
    }

    /// The tuning parameters are those of the current level.
    pub open spec fn tuned(self) -> bool {
        self == self.apply_level(self.level)
    }

    /// The downgrade threshold lies below the upgrade threshold, which leaves
    /// a band of frame rates in which the level is neither lowered nor raised.
    pub open spec fn has_band(self) -> bool {
        self.downgrade_threshold < self.upgrade_threshold
    }

    /// Particles to spawn for an effect designed for `base` particles: the
    /// multiplier's share of `base`, rounded up, and never less than one.
    pub open spec fn particle_count(self, base: nat) -> nat {
        let share = (base * self.particle_multiplier + 99) / 100;
        if share < 1 {
            1
        } else {
            share as nat
        }
    }

    /// Materials are due for a refresh once a full update period has passed
    /// since the last one. Times are in microseconds.
    pub open spec fn material_update_due(self, elapsed: nat, last_update: nat) -> bool {
        &&& self.material_update_hz > 0
        &&& elapsed >= last_update
        &&& (elapsed - last_update) * self.material_update_hz >= SECOND
    }
}

/// Quality settings with hysteresis thresholds.
#[derive(Clone, Copy, PartialEq, Eq, Debug, Structural)]
pub struct QualitySettings {
    pub level: QualityLevel,
    /// Share of a base particle count that is spawned, in percent.
    pub particle_multiplier: u32,
    /// Strength of optional effects, in percent.
    pub effect_intensity: u32,
    /// Most dynamic lights that may be lit at once.
    pub max_lights: u32,
    /// How often materials are refreshed, in hertz.
    pub material_update_hz: u32,
    /// The slow average must drop below this rate to downgrade.
    pub downgrade_threshold: u64,
    /// The slow average must exceed this rate to upgrade.
    pub upgrade_threshold: u64,
}

impl View for QualitySettings {
    type V = SettingsModel;

    open spec fn view(&self) -> SettingsModel {
        SettingsModel {
            level: self.level,
            particle_multiplier: self.particle_multiplier as nat,
            effect_intensity: self.effect_intensity as nat,
            max_lights: self.max_lights as nat,
            material_update_hz: self.material_update_hz as nat,
            downgrade_threshold: self.downgrade_threshold as nat,
            upgrade_threshold: self.upgrade_threshold as nat,
        }
    }
}

impl QualitySettings {
    /// Settings for a governor that starts at `level`.
    pub fn new(level: QualityLevel) -> (settings: Self)
        ensures
            settings@ == SettingsModel::startup(level),
            settings@.tuned(),
            settings@.has_band(),
    {
        let mut settings = QualitySettings {
            level,
            particle_multiplier: 100,
            effect_intensity: 100,
            max_lights: 8,
            material_update_hz: 20,
            downgrade_threshold: DEFAULT_DOWNGRADE_THRESHOLD,
            upgrade_threshold: DEFAULT_UPGRADE_THRESHOLD,
        };
        settings.apply_level(level);
        settings
    }

    /// Puts `level` in force: a pure lookup in the tuning table.
    pub fn apply_level(&mut self, level: QualityLevel)
        ensures
            final(self)@ == old(self)@.apply_level(level),
            final(self)@.tuned(),
    {
        self.level = level;
        match level {
            QualityLevel::Ultra => {
                self.particle_multiplier = 100;
                self.effect_intensity = 100;
                self.max_lights = 16;
                self.material_update_hz = 60;
            },
            QualityLevel::High => {
                self.particle_multiplier = 70;
                self.effect_intensity = 100;
                self.max_lights = 12;
                self.material_update_hz = 30;
            },
            QualityLevel::Medium => {
                self.particle_multiplier = 40;
                self.effect_intensity = 80;
                self.max_lights = 8;
                self.material_update_hz = 20;
            },
            QualityLevel::Low => {
                self.particle_multiplier = 20;
                self.effect_intensity = 50;
                self.max_lights = 4;
                self.material_update_hz = 10;
            },
            QualityLevel::Potato => {
                self.particle_multiplier = 8;
                self.effect_intensity = 0;
                self.max_lights = 2;
                self.material_update_hz = 5;
            },
        }
    }

    /// Particles to spawn for an effect designed for `base` particles. A
    /// count too large for `usize` is reported as `usize::MAX`.
    pub fn particle_count(&self, base: usize) -> (count: usize)
        ensures
            count == if self@.particle_count(base as nat) <= usize::MAX {
                self@.particle_count(base as nat)
            } else {
                usize::MAX as nat
            },
    {
        assert(base * self.particle_multiplier <= u64::MAX * u32::MAX) by (nonlinear_arith)
            requires
                base <= u64::MAX,
                self.particle_multiplier <= u32::MAX,
        ;
        let scaled: u128 = (base as u128) * (self.particle_multiplier as u128);
        let share: u128 = (scaled + 99) / 100;
        if share < 1 {
            1
        } else if share > usize::MAX as u128 {
            usize::MAX
        } else {
            share as usize
        }
    }

    /// Whether materials are due for a refresh at time `elapsed`, given the
    /// time of the last refresh. Both times are in microseconds.
    pub fn should_update_materials(&self, elapsed: u64, last_update: u64) -> (due: bool)
        ensures
            due == self@.material_update_due(elapsed as nat, last_update as nat),
    {
        if self.material_update_hz == 0 || elapsed < last_update {
            return false;
        }
        let waited: u64 = elapsed - last_update;
        assert(waited * self.material_update_hz <= u64::MAX * u32::MAX) by (nonlinear_arith)
            requires
                waited <= u64::MAX,
                self.material_update_hz <= u32::MAX,
        ;
        (waited as u128) * (self.material_update_hz as u128) >= SECOND as u128
    }
}

impl Default for QualitySettings {
    fn default() -> (settings: Self)
        ensures
            settings@ == SettingsModel::startup(QualityLevel::Medium),
            settings@.tuned(),
            settings@.has_band(),
    {
        QualitySettings::new(QualityLevel::Medium)
    }
}

} // verus!
