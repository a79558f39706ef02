use vstd::prelude::*;

verus! {

/// The bound on bounces along one path that a render uses unless told otherwise.
pub const DEFAULT_MAX_DEPTH: usize = 50;

/// What the radiance estimate of a ray does once the scene has been queried.
#[derive(Clone, Copy, Debug, PartialEq, Eq, Structural)]
pub enum Action {
    /// Nothing was hit: the ray sees the sky gradient.
    Background,
    /// A surface was hit and the path may go on: ask its material to scatter.
    Scatter,
    /// A surface was hit but the path has used all its bounces: it adds black.
    Absorb,
}

/// Where a path stands: how many times it has bounced, and how many it may.
#[derive(Clone, Copy, Debug, PartialEq, Eq, Structural)]
pub struct Bounces {
    pub depth: usize,
    pub max_depth: usize,
}

/// The action for a ray at `depth` of at most `max_depth` bounces, given
/// whether it hit anything.
pub open spec fn action_for(depth: nat, max_depth: nat, hit: bool) -> Action {
    if !hit {
        Action::Background
    } else if depth < max_depth {
        Action::Scatter
    } else {
        Action::Absorb
    }
}

impl Bounces {
    pub open spec fn wf(&self) -> bool {
        self.depth <= self.max_depth
    }

    /// The bounces a path may still make; each bounce takes one.
    pub open spec fn remaining(&self) -> nat {
        (self.max_depth - self.depth) as nat
    }

    /// A camera ray, which has not bounced yet.
    pub fn start(max_depth: usize) -> (b: Bounces)
        ensures
            b.wf(),
            b == (Bounces { depth: 0, max_depth }),
            b.remaining() == max_depth,
    {
        Bounces { depth: 0, max_depth }
    }

    /// Decides what follows the nearest-hit query of the ray.
    pub fn on_query(&self, hit: bool) -> (a: Action)
        ensures
            a == action_for(self.depth as nat, self.max_depth as nat, hit),
    {
        if !hit {
            Action::Background
        } else if self.depth < self.max_depth {
            Action::Scatter
        } else {
            Action::Absorb
        }
    }

    /// The state of the ray that a material scattered.
    pub fn bounce(&self) -> (b: Bounces)
        requires
            self.wf(),
            self.depth < self.max_depth,
        ensures
            b.wf(),
            b.depth == self.depth + 1,
            b.max_depth == self.max_depth,
            b.remaining() + 1 == self.remaining(),
    {
        Bounces { depth: self.depth + 1, max_depth: self.max_depth }
    }
}

} // verus!
