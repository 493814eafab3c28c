//! The branch choices of the three materials.
//!
//! The caller evaluates the dot products, the Schlick reflectance and the
//! random draws; which way a ray goes is decided here.

use vstd::prelude::*;
use crate::binary32::{zero_value, one_value, Binary32};

verus! {

/// How a dielectric sends a ray on.
#[derive(Clone, Copy, Debug, PartialEq, Eq, Structural)]
pub enum Bounce {
    Reflect,
    Refract,
}

/// A metal absorbs a ray whose scattered direction does not leave the surface:
/// the direction's dot product with the normal is at most zero.
pub fn metal_absorbs(dot: Binary32) -> (r: bool)
    ensures
        r == dot.spec_less_eq(zero_value()),
{
    dot.less_eq(&Binary32::zero())
}

/// Snell's law has no solution: `ratio * sin_theta` exceeds one.
pub open spec fn cannot_refract(scaled_sine: Binary32) -> bool {
    one_value().spec_less(scaled_sine)
}

/// The way a dielectric sends a ray on, given the refraction ratio times the
/// sine of the incidence angle, the Schlick reflectance at that angle and a
/// uniform draw.
pub open spec fn dielectric_choice(
    scaled_sine: Binary32,
    reflectance: Binary32,
    draw: Binary32,
) -> Bounce {
    if cannot_refract(scaled_sine) || draw.spec_less(reflectance) {
        Bounce::Reflect
    } else {
        Bounce::Refract
    }
}

/// A dielectric reflects under total internal reflection, and otherwise
/// reflects when the draw falls below the reflectance and refracts when not.
pub fn dielectric_bounce(scaled_sine: Binary32, reflectance: Binary32, draw: Binary32) -> (r:
    Bounce)
    ensures
        r == dielectric_choice(scaled_sine, reflectance, draw),
{
    if Binary32::one().less(&scaled_sine) || draw.less(&reflectance) {
        Bounce::Reflect
    } else {
        Bounce::Refract
    }
}

/// Beyond the critical angle a dielectric reflects, whatever the reflectance
/// and whatever the draw.
pub proof fn lemma_total_internal_reflection(scaled_sine: Binary32)
    requires
        cannot_refract(scaled_sine),
    ensures
        forall|reflectance: Binary32, draw: Binary32|
            #[trigger] dielectric_choice(scaled_sine, reflectance, draw) == Bounce::Reflect,
{
}

/// A candidate drawn from the cube `[-1, 1]^3` is kept when its squared
/// length is at most one.
pub fn inside_unit_ball(squared_length: Binary32) -> (r: bool)
    ensures
        r == squared_length.spec_less_eq(one_value()),
{
    squared_length.less_eq(&Binary32::one())
}

} // verus!
