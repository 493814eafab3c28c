//! Ray-sphere root selection, the scene's nearest-hit scan and the
//! face-orientation rule.
//!
//! A sphere test solves `a t^2 + 2 b t + c = 0`; the caller evaluates the
//! discriminant `b^2 - a c` and the two roots, and the choices made on those
//! values stand here.

use vstd::prelude::*;
use crate::binary32::{zero_value, Binary32};

verus! {

/// Which of a sphere's two roots was accepted.
#[derive(Clone, Copy, Debug, PartialEq, Eq, Structural)]
pub enum Root {
    Near,
    Far,
}

/// The discriminant of one ray-sphere quadratic and its two roots, the smaller
/// one first.
#[derive(Clone, Copy, Debug)]
pub struct RootPair {
    pub discriminant: Binary32,
    pub near: Binary32,
    pub far: Binary32,
}

/// Whether `t` lies strictly inside the window `(t_min, t_max)`.
pub open spec fn inside(t: Binary32, t_min: Binary32, t_max: Binary32) -> bool {
    t.spec_less(t_max) && t_min.spec_less(t)
}

impl RootPair {
    /// The roots come in ascending order, unless one of them is a NaN.
    pub open spec fn wf(self) -> bool {
        !self.near.is_nan() && !self.far.is_nan() ==> self.near.rank() <= self.far.rank()
    }

    /// The quadratic has two distinct real roots.
    pub open spec fn crosses(self) -> bool {
        zero_value().spec_less(self.discriminant)
    }

    pub open spec fn time_of(self, root: Root) -> Binary32 {
        match root {
            Root::Near => self.near,
            Root::Far => self.far,
        }
    }

    /// The root a sphere reports for the window `(t_min, t_max)`: none unless
    /// the discriminant is positive, else the first root, in ascending order,
    /// that lies strictly inside the window.
    pub open spec fn accepted(self, t_min: Binary32, t_max: Binary32) -> Option<Root> {
        if !self.crosses() {
            None
        } else if inside(self.near, t_min, t_max) {
            Some(Root::Near)
        } else if inside(self.far, t_min, t_max) {
            Some(Root::Far)
        } else {
            None
        }
    }

    /// Puts two roots in ascending order; a pair holding a NaN keeps its order.
    pub fn ascending(discriminant: Binary32, first: Binary32, second: Binary32) -> (r: RootPair)
        ensures
            r.wf(),
            r.discriminant == discriminant,
            second.spec_less(first) ==> r.near == second && r.far == first,
            !second.spec_less(first) ==> r.near == first && r.far == second,
    {
        if second.less(&first) {
            RootPair { discriminant, near: second, far: first }
        } else {
            RootPair { discriminant, near: first, far: second }
        }
    }

    pub fn time(&self, root: Root) -> (r: Binary32)
        ensures
            r == self.time_of(root),
    {
        match root {
            Root::Near => self.near,
            Root::Far => self.far,
        }
    }

    /// The sphere test's choice of root for the window `(t_min, t_max)`.
    pub fn select(&self, t_min: Binary32, t_max: Binary32) -> (r: Option<Root>)
        ensures
            r == self.accepted(t_min, t_max),
    {
        if !Binary32::zero().less(&self.discriminant) {
            return None;
        }
        if self.near.less(&t_max) && t_min.less(&self.near) {
            Some(Root::Near)
        } else if self.far.less(&t_max) && t_min.less(&self.far) {
            Some(Root::Far)
        } else {
            None
        }
    }
}

/// Member `i` of the scene is hit somewhere inside `(t_min, t_max)`.
pub open spec fn hits(
    members: Seq<RootPair>,
    i: int,
    t_min: Binary32,
    t_max: Binary32,
) -> bool {
    members[i].accepted(t_min, t_max) is Some
}

/// The time at which member `i` is hit inside `(t_min, t_max)`.
pub open spec fn hit_time(
    members: Seq<RootPair>,
    i: int,
    t_min: Binary32,
    t_max: Binary32,
) -> Binary32 {
    members[i].time_of(members[i].accepted(t_min, t_max).unwrap())
}

/// `r` is the nearest hit of the scene inside `(t_min, t_max)`: the member
/// hit at the least time, the first in the sequence among equals; or none
/// when no member is hit.
pub open spec fn is_nearest(
    members: Seq<RootPair>,
    t_min: Binary32,
    t_max: Binary32,
    r: Option<(usize, Root)>,
) -> bool {
    match r {
        None => forall|j: int| 0 <= j < members.len() ==> !hits(members, j, t_min, t_max),
        Some((i, root)) => {
            &&& 0 <= i < members.len()
            &&& members[i as int].accepted(t_min, t_max) == Some(root)
            &&& forall|j: int|
                0 <= j < members.len() && #[trigger] hits(members, j, t_min, t_max) ==> {
                    &&& hit_time(members, i as int, t_min, t_max).rank() <= hit_time(
                        members,
                        j,
                        t_min,
                        t_max,
                    ).rank()
                    &&& j < i ==> hit_time(members, i as int, t_min, t_max).rank() < hit_time(
                        members,
                        j,
                        t_min,
                        t_max,
                    ).rank()
                }
        },
    }
}

/// Narrowing the window's upper end below a member's hit loses that hit, and
/// narrowing it above the hit keeps the same root.
proof fn lemma_narrowed_window(p: RootPair, t_min: Binary32, t_max: Binary32, bound: Binary32)
    requires
        p.wf(),
        !bound.is_nan(),
        !t_max.is_nan(),
        bound.rank() <= t_max.rank(),
    ensures
        p.accepted(t_min, bound) is Some ==> p.accepted(t_min, t_max) == p.accepted(t_min, bound),
        p.accepted(t_min, t_max) is Some ==> (p.accepted(t_min, bound) is Some <==> p.time_of(
            p.accepted(t_min, t_max).unwrap(),
        ).rank() < bound.rank()),
{
}

/// The scene aggregate: scans the members once, narrowing the window's upper
/// end to the closest hit found so far, and reports the nearest hit.
pub fn nearest_hit(members: &Vec<RootPair>, t_min: Binary32, t_max: Binary32) -> (r: Option<
    (usize, Root),
>)
    requires
        forall|i: int| 0 <= i < members.len() ==> (#[trigger] members[i]).wf(),
    ensures
        is_nearest(members@, t_min, t_max, r),
{
    let mut closest = t_max;
    let mut best: Option<(usize, Root)> = None;
    let mut i: usize = 0;
    while i < members.len()
        invariant
            0 <= i <= members.len(),
            forall|k: int| 0 <= k < members.len() ==> (#[trigger] members[k]).wf(),
            !t_max.is_nan() ==> !closest.is_nan() && closest.rank() <= t_max.rank(),
            match best {
                None => {
                    &&& closest == t_max
                    &&& forall|j: int| 0 <= j < i ==> !hits(members@, j, t_min, t_max)
                },
                Some((b, root)) => {
                    &&& 0 <= b < i
                    &&& members@[b as int].accepted(t_min, t_max) == Some(root)
                    &&& closest == members@[b as int].time_of(root)
                    &&& forall|j: int|
                        0 <= j < i && #[trigger] hits(members@, j, t_min, t_max) ==> {
                            &&& closest.rank() <= hit_time(members@, j, t_min, t_max).rank()
                            &&& j < b ==> closest.rank() < hit_time(
                                members@,
                                j,
                                t_min,
                                t_max,
                            ).rank()
                        }
                },
            },
        decreases members.len() - i,
    {
        let m = members[i];
        proof {
            if !t_max.is_nan() {
                lemma_narrowed_window(m, t_min, t_max, closest);
            }
        }
        match m.select(t_min, closest) {
            Some(root) => {
                closest = m.time(root);
                best = Some((i, root));
            },
            None => {},
        }
        i = i + 1;
    }
    best
}

/// Of two members hit inside the window, the one hit later is never the
/// scene's answer.
pub proof fn lemma_farther_member_loses(
    members: Seq<RootPair>,
    t_min: Binary32,
    t_max: Binary32,
    r: Option<(usize, Root)>,
    near: int,
    far: int,
)
    requires
        is_nearest(members, t_min, t_max, r),
        0 <= near < members.len(),
        0 <= far < members.len(),
        hits(members, near, t_min, t_max),
        hits(members, far, t_min, t_max),
        hit_time(members, near, t_min, t_max).rank() < hit_time(members, far, t_min, t_max).rank(),
    ensures
        r is Some,
        r.unwrap().0 != far,
{
}

/// Whether a ray meets a surface from outside: the dot product of the ray's
/// direction with the outward normal is below zero.
pub fn front_face(dot: Binary32) -> (r: bool)
    ensures
        r == dot.spec_less(zero_value()),
{
    dot.less(&Binary32::zero())
}

/// The dot product of the ray's direction with the normal that is kept: the
/// outward one on a front face, its negation otherwise.
pub open spec fn oriented_dot(dot: Binary32) -> Binary32 {
    if dot.spec_less(zero_value()) {
        dot
    } else {
        dot.negated()
    }
}

/// Face orientation: the normal that is kept never points along the ray.
/// Whatever the outward normal, its dot product with the ray's direction is at
/// most zero once oriented, unless that product is a NaN.
pub proof fn lemma_normal_opposes_ray(dot: Binary32)
    requires
        !dot.is_nan(),
    ensures
        oriented_dot(dot).spec_less_eq(zero_value()),
{
    crate::binary32::lemma_negated_rank(dot);
}

} // verus!
