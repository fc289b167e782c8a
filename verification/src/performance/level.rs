//! The ordered quality levels, their tuning table, and the notification of a
//! change between two levels.

use vstd::prelude::*;

verus! {

/// Discrete rendering quality, from highest fidelity to lowest.
#[derive(Clone, Copy, PartialEq, Eq, Debug, Structural)]
pub enum QualityLevel {
    Ultra,
    High,
    Medium,
    Low,
    Potato,
}

/// Emitted once for every accepted transition of the quality level.
#[derive(Clone, Copy, PartialEq, Eq, Debug, Structural)]
pub struct QualityChanged {
    pub old: QualityLevel,
    pub new: QualityLevel,
}

/// The rendering parameters that belong to one quality level.
///
/// Multiplier and intensity are percentages; the update frequency is in hertz.
pub struct Tuning {
    pub particle_multiplier: nat,
    pub effect_intensity: nat,
    pub max_lights: nat,
    pub material_update_hz: nat,
}

impl QualityLevel {
    /// Position in the fidelity order: `Potato` is 0 and `Ultra` is 4.
    pub open spec fn rank(self) -> int {
        match self {
            QualityLevel::Potato => 0,
            QualityLevel::Low => 1,
            QualityLevel::Medium => 2,
            QualityLevel::High => 3,
            QualityLevel::Ultra => 4,
        }
    }

    /// The level at a position of the fidelity order; positions beyond either
    /// end name the level at that end.
    pub open spec fn at_rank(r: int) -> QualityLevel {
        if r <= 0 {
            QualityLevel::Potato
        } else if r == 1 {
            QualityLevel::Low
        } else if r == 2 {
            QualityLevel::Medium
        } else if r == 3 {
            QualityLevel::High
        } else {
            QualityLevel::Ultra
        }
    }

    /// The neighbour one step lower in fidelity, clamped at `Potato`.
    pub open spec fn lower(self) -> QualityLevel {
        Self::at_rank(self.rank() - 1)
    }

    /// The neighbour one step higher in fidelity, clamped at `Ultra`.
    pub open spec fn higher(self) -> QualityLevel {
        Self::at_rank(self.rank() + 1)
    }

    /// Two levels are within one step of each other when they are equal or
    /// direct neighbours in the fidelity order.
    pub open spec fn within_one_step(self, other: QualityLevel) -> bool {
        -1 <= self.rank() - other.rank() <= 1
    }

    /// The static tuning table.
    pub open spec fn tuning(self) -> Tuning {
        match self {
            QualityLevel::Ultra => Tuning {
                particle_multiplier: 100,
                effect_intensity: 100,
                max_lights: 16,
                material_update_hz: 60,
            },
            QualityLevel::High => Tuning {
                particle_multiplier: 70,
                effect_intensity: 100,
                max_lights: 12,
                material_update_hz: 30,
            },
            QualityLevel::Medium => Tuning {
                particle_multiplier: 40,
                effect_intensity: 80,
                max_lights: 8,
                material_update_hz: 20,
            },
            QualityLevel::Low => Tuning {
                particle_multiplier: 20,
                effect_intensity: 50,
                max_lights: 4,
                material_update_hz: 10,
            },
            QualityLevel::Potato => Tuning {
                particle_multiplier: 8,
                effect_intensity: 0,
                max_lights: 2,
                material_update_hz: 5,
            },
        }
    }

    /// Moves one step towards lower fidelity. At `Potato` this is a no-op.
    pub fn step_down(&self) -> (next: Self)
        ensures
            next == self.lower(),
    {
        match self {
            QualityLevel::Ultra => QualityLevel::High,
            QualityLevel::High => QualityLevel::Medium,
            QualityLevel::Medium => QualityLevel::Low,
            QualityLevel::Low | QualityLevel::Potato => QualityLevel::Potato,
        }
    }

    /// Moves one step towards higher fidelity. At `Ultra` this is a no-op.
    pub fn step_up(&self) -> (next: Self)
        ensures
            next == self.higher(),
    {
        match self {
            QualityLevel::Potato => QualityLevel::Low,
            QualityLevel::Low => QualityLevel::Medium,
            QualityLevel::Medium => QualityLevel::High,
            QualityLevel::High | QualityLevel::Ultra => QualityLevel::Ultra,
        }
    }

    /// Particle spawner rate multiplier of this level, in percent.
    pub fn spawner_rate_mult(&self) -> (percent: u32)
        ensures
            percent == self.tuning().particle_multiplier,
    {
        match self {
            QualityLevel::Ultra => 100,
            QualityLevel::High => 70,
            QualityLevel::Medium => 40,
            QualityLevel::Low => 20,
            QualityLevel::Potato => 8,
        }
    }

    /// The level a fresh governor starts at: conservative on targets that are
    /// short of memory or CPU, mid-tier everywhere else.
    pub fn platform_default(constrained: bool) -> (level: Self)
        ensures
            level == if constrained { QualityLevel::Low } else { QualityLevel::Medium },
    {
        if constrained {
            QualityLevel::Low
        } else {
            QualityLevel::Medium
        }
    }
}

impl Default for QualityLevel {
    fn default() -> (level: Self)
        ensures
            level == QualityLevel::Medium,
    {
        QualityLevel::Medium
    }
}

/// Stepping never leaves the neighbourhood of the level it starts from, the
/// two ends are fixed points of the step that would leave the order, and
/// away from the ends the two steps undo each other.
pub proof fn lemma_steps_are_adjacent(level: QualityLevel)
    ensures
        level.within_one_step(level.lower()),
        level.within_one_step(level.higher()),
        level.lower().rank() == if level.rank() == 0 { 0 } else { level.rank() - 1 },
        level.higher().rank() == if level.rank() == 4 { 4 } else { level.rank() + 1 },
        level.lower() == level <==> level == QualityLevel::Potato,
        level.higher() == level <==> level == QualityLevel::Ultra,
        level != QualityLevel::Potato ==> level.lower().higher() == level,
        level != QualityLevel::Ultra ==> level.higher().lower() == level,
{
}

/// The rank identifies the level.
pub proof fn lemma_rank_identifies_level(a: QualityLevel, b: QualityLevel)
    ensures
        0 <= a.rank() <= 4,
        QualityLevel::at_rank(a.rank()) == a,
        a.rank() == b.rank() <==> a == b,
{
}

} // verus!
