//! What the user can change while the simulation runs.

use crate::scalar::{FloatBits, ZERO_BITS};
use vstd::prelude::*;

verus! {

/// Movement groups per frame at launch.
pub const INIT_MOVEMENT_STEPS: u32 = 3;

/// Dispersion steps per group at launch.
pub const INIT_DISPERSION_STEPS: u32 = 10;

/// Fewest movement groups a frame can be set to run.
pub const MIN_MOVEMENT_STEPS: u32 = 1;

/// Most movement groups a frame can be set to run.
pub const MAX_MOVEMENT_STEPS: u32 = 3;

/// Fewest dispersion steps a group can be set to run.
pub const MIN_DISPERSION_STEPS: u32 = 1;

/// Most dispersion steps a group can be set to run.
pub const MAX_DISPERSION_STEPS: u32 = 10;

/// A snapshot of the settings, taken once per frame.
#[derive(Clone, Copy, Debug, PartialEq, Eq)]
pub struct SandAppSettings {
    /// Seconds since launch, as last measured by whoever owns the clock.
    pub seed: FloatBits,
    pub is_paused: bool,
    pub movement_steps: u32,
    pub dispersion_steps: u32,
    pub print_performance: bool,
}

/// The value in `[low, high]` nearest to `value`.
pub open spec fn clamped(value: u32, low: u32, high: u32) -> u32 {
    if value < low {
        low
    } else if value > high {
        high
    } else {
        value
    }
}

impl SandAppSettings {
    /// Whether both step counts are within the range the controls offer.
    pub open spec fn in_range(self) -> bool {
        MIN_MOVEMENT_STEPS <= self.movement_steps <= MAX_MOVEMENT_STEPS && MIN_DISPERSION_STEPS
            <= self.dispersion_steps <= MAX_DISPERSION_STEPS
    }

    /// Launch settings: running, three movement groups, ten dispersion
    /// steps, no time elapsed.
    pub open spec fn spec_new() -> SandAppSettings {
        SandAppSettings {
            seed: FloatBits(ZERO_BITS),
            is_paused: false,
            movement_steps: INIT_MOVEMENT_STEPS,
            dispersion_steps: INIT_DISPERSION_STEPS,
            print_performance: false,
        }
    }

    /// Launch settings: running, three movement groups, ten dispersion
    /// steps, no time elapsed.
    #[verifier::when_used_as_spec(spec_new)]
    pub fn new() -> (settings: SandAppSettings)
        ensures
            settings == SandAppSettings::spec_new(),
            settings.in_range(),
    {
        let dispersion_steps = INIT_DISPERSION_STEPS;
        let movement_steps = INIT_MOVEMENT_STEPS;
        SandAppSettings {
            seed: FloatBits(ZERO_BITS),
            movement_steps,
            is_paused: false,
            dispersion_steps,
            print_performance: false,
        }
    }

    /// Seconds since launch, for the kernels' pseudo-random numbers.
    pub fn get_current_seed(&self) -> (seed: FloatBits)
        ensures
            seed == self.seed,
    {
        self.seed
    }

    /// Sets the number of movement groups, held to the range on offer.
    pub fn set_movement_steps(&mut self, steps: u32)
        ensures
            *final(self) == (SandAppSettings {
                movement_steps: clamped(steps, MIN_MOVEMENT_STEPS, MAX_MOVEMENT_STEPS),
                ..*old(self)
            }),
    {
        self.movement_steps = if steps < MIN_MOVEMENT_STEPS {
            MIN_MOVEMENT_STEPS
        } else if steps > MAX_MOVEMENT_STEPS {
            MAX_MOVEMENT_STEPS
        } else {
            steps
        };
    }

    /// Sets the number of dispersion steps, held to the range on offer.
    pub fn set_dispersion_steps(&mut self, steps: u32)
        ensures
            *final(self) == (SandAppSettings {
                dispersion_steps: clamped(steps, MIN_DISPERSION_STEPS, MAX_DISPERSION_STEPS),
                ..*old(self)
            }),
    {
        self.dispersion_steps = if steps < MIN_DISPERSION_STEPS {
            MIN_DISPERSION_STEPS
        } else if steps > MAX_DISPERSION_STEPS {
            MAX_DISPERSION_STEPS
        } else {
            steps
        };
    }
}

impl Default for SandAppSettings {
    fn default() -> (settings: SandAppSettings)
        ensures
            settings == SandAppSettings::spec_new(),
    {
        SandAppSettings::new()
    }
}

} // verus!
