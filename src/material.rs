//! What a surface does with a ray that reaches it.
//!
//! The scatter rule of each material decides between a diffuse bounce, a
//! mirror reflection, a refraction, or absorption. It reads a few facts of the
//! encounter that the floating-point geometry establishes; the directions and
//! colours themselves are computed from the decision.
use vstd::prelude::*;

verus! {

/// The kind of ray that leaves a surface.
#[derive(Clone, Copy, Debug, PartialEq, Eq, Structural)]
pub enum Bounce {
    /// Leaves along the normal plus a random unit vector.
    Diffuse,
    /// Leaves along the mirror reflection of the incoming direction.
    Reflected,
    /// Passes into the other medium, bent by Snell's law.
    Refracted,
}

/// A ray meeting a surface, described by what the material's rule reads.
#[derive(Clone, Copy, Debug, PartialEq, Eq, Structural)]
pub enum Encounter {
    /// A Lambertian surface.
    Lambertian,
    /// A metal surface. `leaves_surface`: the unfuzzed reflection of the
    /// incoming direction has a positive dot product with the normal.
    Metal { leaves_surface: bool },
    /// A dielectric surface. `cannot_refract`: the relative index times the sine
    /// of the incidence angle is at least one, so Snell's law has no solution
    /// (this includes the critical angle itself). `draw_below_reflectance`: a
    /// fresh uniform draw in `[0, 1)` fell below the Schlick reflectance.
    Dielectric { cannot_refract: bool, draw_below_reflectance: bool },
}

/// The scatter rule of the three materials; `None` means the ray is absorbed.
pub open spec fn scattered(e: Encounter) -> Option<Bounce> {
    match e {
        Encounter::Lambertian => Some(Bounce::Diffuse),
        Encounter::Metal { leaves_surface } => if leaves_surface {
            Some(Bounce::Reflected)
        } else {
            None
        },
        Encounter::Dielectric { cannot_refract, draw_below_reflectance } => if cannot_refract
            || draw_below_reflectance {
            Some(Bounce::Reflected)
        } else {
            Some(Bounce::Refracted)
        },
    }
}

/// Applies the scatter rule of the struck material.
pub fn scatter(e: Encounter) -> (r: Option<Bounce>)
    ensures
        r == scattered(e),
{
    match e {
        Encounter::Lambertian => Some(Bounce::Diffuse),
        Encounter::Metal { leaves_surface } => {
            if leaves_surface {
                Some(Bounce::Reflected)
            } else {
                None
            }
        },
        Encounter::Dielectric { cannot_refract, draw_below_reflectance } => {
            if cannot_refract {
                Some(Bounce::Reflected)
            } else if draw_below_reflectance {
                Some(Bounce::Reflected)
            } else {
                Some(Bounce::Refracted)
            }
        },
    }
}

/// Where Snell's law has no solution (total internal reflection, the critical
/// angle included) a dielectric reflects whatever the random draw was; only
/// where refraction is possible does the draw choose, reflecting exactly when it
/// fell below the reflectance.
pub proof fn dielectric_draw_matters_only_when_refraction_is_possible(
    cannot_refract: bool,
    draw: bool,
    other_draw: bool,
)
    ensures
        cannot_refract ==> scattered(
            Encounter::Dielectric { cannot_refract, draw_below_reflectance: draw },
        ) == Some(Bounce::Reflected) && scattered(
            Encounter::Dielectric { cannot_refract, draw_below_reflectance: other_draw },
        ) == Some(Bounce::Reflected),
        !cannot_refract ==> (scattered(
            Encounter::Dielectric { cannot_refract, draw_below_reflectance: draw },
        ) == Some(Bounce::Reflected) <==> draw),
{
}

/// Lambertian and dielectric surfaces never absorb; a metal absorbs exactly the
/// rays whose reflection would point into the surface.
pub proof fn absorption_only_at_metal(e: Encounter)
    ensures
        scattered(e) is None <==> (e matches Encounter::Metal { leaves_surface } && !leaves_surface),
{
}

} // verus!
