use crate::geometry::{dist_sq, distance_sq, square, Point3, COORD_LIMIT};
use vstd::prelude::*;

verus! {

/// How an enemy is lit: by a spotlight cone, by a torch, by both or by
/// neither. The two flags are kept apart so that each light's own effects
/// can be switched on and off.
#[derive(Clone, Copy, Debug, PartialEq, Eq, Structural)]
pub struct Illumination {
    pub spotlighted: bool,
    pub torchlit: bool,
}

/// What became of one flag in an update.
#[derive(Clone, Copy, Debug, PartialEq, Eq, Structural)]
pub enum FlagChange {
    Added,
    Removed,
    Unchanged,
}

pub open spec fn change_spec(before: bool, after: bool) -> FlagChange {
    if !before && after {
        FlagChange::Added
    } else if before && !after {
        FlagChange::Removed
    } else {
        FlagChange::Unchanged
    }
}

/// The changes of both flags in one update.
#[derive(Clone, Copy, Debug, PartialEq, Eq, Structural)]
pub struct LightChange {
    pub spotlight: FlagChange,
    pub torch: FlagChange,
}

fn change(before: bool, after: bool) -> (r: FlagChange)
    ensures
        r == change_spec(before, after),
{
    if !before && after {
        FlagChange::Added
    } else if before && !after {
        FlagChange::Removed
    } else {
        FlagChange::Unchanged
    }
}

impl Illumination {
    pub open spec fn is_lit(self) -> bool {
        self.spotlighted || self.torchlit
    }

    /// Lit by nothing.
    pub fn dark() -> (r: Illumination)
        ensures
            !r.spotlighted && !r.torchlit,
    {
        Illumination { spotlighted: false, torchlit: false }
    }

    /// Lit by at least one light.
    pub fn lit(&self) -> (r: bool)
        ensures
            r == self.is_lit(),
    {
        self.spotlighted || self.torchlit
    }

    /// Sets the spotlight flag from this tick's cone test, leaving the torch
    /// flag alone, and reports what became of it.
    pub fn set_spotlighted(&mut self, hit: bool) -> (r: FlagChange)
        ensures
            *final(self) == (Illumination { spotlighted: hit, ..*old(self) }),
            r == change_spec(old(self).spotlighted, hit),
    {
        let r = change(self.spotlighted, hit);
        self.spotlighted = hit;
        r
    }

    /// Sets the torch flag from this tick's torch test, leaving the
    /// spotlight flag alone, and reports what became of it.
    pub fn set_torchlit(&mut self, hit: bool) -> (r: FlagChange)
        ensures
            *final(self) == (Illumination { torchlit: hit, ..*old(self) }),
            r == change_spec(old(self).torchlit, hit),
    {
        let r = change(self.torchlit, hit);
        self.torchlit = hit;
        r
    }

    /// Sets each flag from its own hit test of this tick, and reports which
    /// flags appeared or went away; a flag already in its wanted state is
    /// left as it is.
    pub fn update(&mut self, in_spotlight: bool, in_torch: bool) -> (r: LightChange)
        ensures
            final(self).spotlighted == in_spotlight,
            final(self).torchlit == in_torch,
            r.spotlight == change_spec(old(self).spotlighted, in_spotlight),
            r.torch == change_spec(old(self).torchlit, in_torch),
    {
        let r = LightChange {
            spotlight: change(self.spotlighted, in_spotlight),
            torch: change(self.torchlit, in_torch),
        };
        self.spotlighted = in_spotlight;
        self.torchlit = in_torch;
        r
    }
}

/// A stationary torch: it lights every enemy within `range` of it.
#[derive(Clone, Copy, Debug, PartialEq, Eq, Structural)]
pub struct Torch {
    pub pos: Point3,
    pub range: i64,
}

impl Torch {
    pub open spec fn wf(self) -> bool {
        self.pos.bounded() && 0 <= self.range <= COORD_LIMIT
    }

    pub open spec fn reaches(self, p: Point3) -> bool {
        dist_sq(self.pos, p) <= self.range * self.range
    }

    /// Whether `p` lies within the torch's range.
    pub fn lights(&self, p: &Point3) -> (r: bool)
        requires
            self.wf(),
            p.bounded(),
        ensures
            r == self.reaches(*p),
    {
        let r2 = square(self.range);
        distance_sq(&self.pos, p) <= r2
    }
}

pub open spec fn torches_wf(torches: Seq<Torch>) -> bool {
    forall|j: int| 0 <= j < torches.len() ==> #[trigger] torches[j].wf()
}

/// Some torch of the list reaches `p`.
pub open spec fn torch_reaches(torches: Seq<Torch>, p: Point3) -> bool {
    exists|j: int| 0 <= j < torches.len() && #[trigger] torches[j].reaches(p)
}

/// Whether any torch lights `p`.
pub fn lit_by_torches(torches: &Vec<Torch>, p: &Point3) -> (r: bool)
    requires
        torches_wf(torches@),
        p.bounded(),
    ensures
        r == torch_reaches(torches@, *p),
{
    let mut j: usize = 0;
    while j < torches.len()
        invariant
            j <= torches.len(),
            torches_wf(torches@),
            p.bounded(),
            forall|k: int| 0 <= k < j ==> !(#[trigger] torches@[k].reaches(*p)),
        decreases torches.len() - j,
    {
        if torches[j].lights(p) {
            assert(torches@[j as int].reaches(*p));
            return true;
        }
        j += 1;
    }
    false
}

} // verus!
