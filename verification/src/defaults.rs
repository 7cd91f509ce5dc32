//! Default values for the persisted application configuration.
//!
//! The configuration file itself is read and written by the application
//! shell; the integer-valued defaults it falls back on are defined here, so
//! that a missing field always receives the same value the simulator starts
//! with.

use vstd::prelude::*;

use crate::boundary::BoundaryMode;
use crate::catalog::{PaletteType, PositionPattern, RuleType};

verus! {

/// Default particle count.
pub fn default_sim_num_particles() -> (r: u32)
    ensures
        r == 64000,
{
    64_000
}

/// Default number of particle types.
pub fn default_sim_num_types() -> (r: u32)
    ensures
        r == 7,
{
    7
}

/// Default interaction-rule generator.
pub fn default_gen_rule() -> (r: RuleType)
    ensures
        r == RuleType::Random,
{
    RuleType::Random
}

/// Default color palette.
pub fn default_gen_palette() -> (r: PaletteType)
    ensures
        r == PaletteType::Rainbow,
{
    PaletteType::Rainbow
}

/// Default spawn pattern.
pub fn default_gen_pattern() -> (r: PositionPattern)
    ensures
        r == PositionPattern::Disk,
{
    PositionPattern::Disk
}

/// Whether the glow effect is on by default.
pub fn default_glow_enabled() -> (r: bool)
    ensures
        r == true,
{
    true
}

/// Default boundary policy.
pub fn default_phys_boundary_mode() -> (r: BoundaryMode)
    ensures
        r == BoundaryMode::Wrap,
{
    BoundaryMode::Wrap
}

/// Default number of mirror-wrap copies.
pub fn default_phys_mirror_wrap_count() -> (r: u32)
    ensures
        r == 5,
{
    5
}

/// Whether interaction radii are rescaled with particle density by default.
pub fn default_auto_scale_radii() -> (r: bool)
    ensures
        r == true,
{
    true
}

} // verus!
