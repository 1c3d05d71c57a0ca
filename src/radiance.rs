//! Control of the recursive radiance estimator.
//!
//! The estimate of the light arriving along a ray has a depth budget. With no
//! budget left it is black and the scene is not queried. Otherwise the scene is
//! queried: a ray that escapes takes the sky's colour; a ray that hits a surface
//! is handed to the surface's material, and either is absorbed (black) or
//! continues as a scattered ray with one less unit of budget, its light
//! attenuated by the material.
use vstd::prelude::*;
use crate::material::{Bounce, Encounter, scattered};

verus! {

/// What a query of the scene found along a ray.
#[derive(Clone, Copy, Debug, PartialEq, Eq, Structural)]
pub enum Interaction {
    /// The ray hits nothing and leaves the scene.
    Escaped,
    /// The ray hits the nearest surface, with this encounter.
    Hit(Encounter),
}

/// What the estimator does next.
#[derive(Clone, Copy, Debug, PartialEq, Eq, Structural)]
pub enum Step {
    /// The estimate is black.
    Black,
    /// The estimate is the sky gradient in the ray's direction.
    Sky,
    /// The estimate is the attenuation of the material times the estimate for
    /// the scattered ray of this kind, taken with budget `depth`.
    Continue { bounce: Bounce, depth: i32 },
}

/// Whether the estimator queries the scene at all with this budget.
pub fn queries_scene(depth: i32) -> (r: bool)
    ensures
        r == (depth > 0),
{
    depth > 0
}

/// The estimator's decision once the scene has been queried with budget `depth`.
pub fn radiance_step(depth: i32, met: Interaction) -> (r: Step)
    requires
        depth > 0,
    ensures
        r == step_after(depth as int, met),
{
    match met {
        Interaction::Escaped => Step::Sky,
        Interaction::Hit(e) => match crate::material::scatter(e) {
            Some(bounce) => Step::Continue { bounce, depth: depth - 1 },
            None => Step::Black,
        },
    }
}

/// The decision after a query with budget `depth > 0`.
pub open spec fn step_after(depth: int, met: Interaction) -> Step {
    match met {
        Interaction::Escaped => Step::Sky,
        Interaction::Hit(e) => match scattered(e) {
            Some(bounce) => Step::Continue { bounce, depth: (depth - 1) as i32 },
            None => Step::Black,
        },
    }
}

/// How a whole estimate ends.
pub enum PathEnd {
    /// Black: budget exhausted or ray absorbed.
    Black,
    /// The sky's colour, attenuated by the first `bounces` materials met.
    Sky { bounces: nat },
}

/// The end of the estimate started with budget `depth`, where `met(k)` is what
/// the `k`-th query of the scene finds (counting from `start`).
pub open spec fn path_end(depth: int, met: spec_fn(nat) -> Interaction, start: nat) -> PathEnd
    decreases depth,
{
    if depth <= 0 {
        PathEnd::Black
    } else {
        match met(start) {
            Interaction::Escaped => PathEnd::Sky { bounces: 0 },
            Interaction::Hit(e) => match scattered(e) {
                None => PathEnd::Black,
                Some(_) => match path_end(depth - 1, met, start + 1) {
                    PathEnd::Sky { bounces } => PathEnd::Sky { bounces: bounces + 1 },
                    PathEnd::Black => PathEnd::Black,
                },
            },
        }
    }
}

/// One query and the decision after it follow the path model: a sky step ends
/// it unattenuated, a black step ends it black, and a continued step hands the
/// rest of the path to the next query with the budget that the step carries.
pub proof fn step_follows_path(depth: int, met: spec_fn(nat) -> Interaction, start: nat)
    requires
        0 < depth <= i32::MAX,
    ensures
        step_after(depth, met(start)) == Step::Sky ==> path_end(depth, met, start) == (PathEnd::Sky {
            bounces: 0,
        }),
        step_after(depth, met(start)) == Step::Black ==> path_end(depth, met, start) == PathEnd::Black,
        step_after(depth, met(start)) matches Step::Continue { depth: d, .. } ==> {
            &&& d == depth - 1
            &&& path_end(depth, met, start) == match path_end(d as int, met, start + 1) {
                PathEnd::Sky { bounces } => PathEnd::Sky { bounces: bounces + 1 },
                PathEnd::Black => PathEnd::Black,
            }
        },
{
}

/// With no depth budget the estimate is black, for every ray in every scene.
pub proof fn exhausted_budget_is_black(depth: int, met: spec_fn(nat) -> Interaction, start: nat)
    requires
        depth <= 0,
    ensures
        path_end(depth, met, start) == PathEnd::Black,
{
}

/// The budget bounds the recursion: an estimate that reaches the sky has met
/// fewer materials than its budget.
pub proof fn bounces_stay_within_budget(depth: int, met: spec_fn(nat) -> Interaction, start: nat)
    ensures
        path_end(depth, met, start) matches PathEnd::Sky { bounces } ==> bounces < depth,
    decreases depth,
{
    if depth > 0 {
        bounces_stay_within_budget(depth - 1, met, start + 1);
    }
}

} // verus!
