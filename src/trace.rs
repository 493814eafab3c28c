//! Control of the recursive path integrator.
//!
//! At each depth the scene is queried for the nearest hit. A miss ends the
//! path at the sky; a hit below the depth bound is handed to the material,
//! which either absorbs the ray (the path ends black) or scatters it one level
//! deeper; a hit at the depth bound ends the path black.

use vstd::prelude::*;

verus! {

/// The default bound on the number of bounces.
pub const MAX_DEPTH: u32 = 16;

/// What the integrator does once the scene has been queried.
#[derive(Clone, Copy, Debug, PartialEq, Eq, Structural)]
pub enum Step {
    /// Nothing was hit: return the sky's colour.
    Sky,
    /// The depth bound is spent: return black.
    Black,
    /// Ask the material to scatter the ray.
    Scatter,
}

/// What the scene and the hit material answered at one depth.
#[derive(Clone, Copy, Debug, PartialEq, Eq, Structural)]
pub enum Outcome {
    Missed,
    Absorbed,
    Scattered,
}

/// How a path ends.
#[derive(Clone, Copy, Debug, PartialEq, Eq, Structural)]
pub enum Terminal {
    Sky,
    Black,
}

pub open spec fn step_for(depth: nat, max_depth: nat, hit: bool) -> Step {
    if !hit {
        Step::Sky
    } else if depth < max_depth {
        Step::Scatter
    } else {
        Step::Black
    }
}

/// The step taken at `depth` once the scene query has answered `hit`.
pub fn after_query(depth: u32, max_depth: u32, hit: bool) -> (r: Step)
    ensures
        r == step_for(depth as nat, max_depth as nat, hit),
{
    if !hit {
        Step::Sky
    } else if depth < max_depth {
        Step::Scatter
    } else {
        Step::Black
    }
}

/// The depth at which a scattered ray is traced on, or none when the material
/// absorbed it and the path ends black.
pub fn after_scatter(depth: u32, max_depth: u32, scattered: bool) -> (r: Option<u32>)
    requires
        depth < max_depth,
    ensures
        scattered ==> r == Some((depth + 1) as u32),
        !scattered ==> r is None,
{
    if scattered {
        Some(depth + 1)
    } else {
        None
    }
}

/// Where a path that starts at `depth` and meets `outcomes` in turn ends, and
/// at which depth; none when the outcomes run out first. An outcome met at the
/// depth bound counts only as a hit.
pub open spec fn path_end(outcomes: Seq<Outcome>, depth: nat, max_depth: nat) -> Option<
    (Terminal, nat),
>
    decreases outcomes.len(),
{
    if outcomes.len() == 0 {
        None
    } else {
        match step_for(depth, max_depth, outcomes[0] != Outcome::Missed) {
            Step::Sky => Some((Terminal::Sky, depth)),
            Step::Black => Some((Terminal::Black, depth)),
            Step::Scatter => if outcomes[0] == Outcome::Absorbed {
                Some((Terminal::Black, depth))
            } else {
                path_end(outcomes.drop_first(), depth + 1, max_depth)
            },
        }
    }
}

/// Every path ends, at the depth bound at the latest: whatever the scene and
/// the materials answer, no more than `max_depth - depth + 1` queries are made.
pub proof fn lemma_path_terminates(outcomes: Seq<Outcome>, depth: nat, max_depth: nat)
    requires
        depth <= max_depth,
        outcomes.len() > max_depth - depth,
    ensures
        path_end(outcomes, depth, max_depth) is Some,
        path_end(outcomes, depth, max_depth).unwrap().1 <= max_depth,
    decreases outcomes.len(),
{
    if depth < max_depth && outcomes[0] == Outcome::Scattered {
        lemma_path_terminates(outcomes.drop_first(), depth + 1, max_depth);
    }
}

/// A ray caught between mirrors, scattered at every query, ends black exactly
/// at the depth bound.
pub proof fn lemma_reflection_trap(outcomes: Seq<Outcome>, depth: nat, max_depth: nat)
    requires
        depth <= max_depth,
        outcomes.len() > max_depth - depth,
        forall|k: int| 0 <= k < outcomes.len() ==> outcomes[k] == Outcome::Scattered,
    ensures
        path_end(outcomes, depth, max_depth) == Some((Terminal::Black, max_depth)),
    decreases outcomes.len(),
{
    if depth < max_depth {
        let rest = outcomes.drop_first();
        assert forall|k: int| 0 <= k < rest.len() implies rest[k] == Outcome::Scattered by {
            assert(rest[k] == outcomes[k + 1]);
        }
        lemma_reflection_trap(rest, depth + 1, max_depth);
    }
}

} // verus!
