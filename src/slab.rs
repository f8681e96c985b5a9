use vstd::prelude::*;

verus! {

/// Which crossing of a box a ray reports.
#[derive(Debug, Clone, Copy, PartialEq, Eq, Structural)]
pub enum Crossing {
    /// The ray enters the box ahead of its origin: the nearest crossing, `t_near`.
    Entry,
    /// The ray starts inside the box: the exit, `t_far`.
    Exit,
}

/// The outcome of the slab test, from three comparisons of its two crossing
/// parameters: `near_after_far` is `t_near > t_far`, `far_behind` is
/// `t_far < 0` and `near_behind` is `t_near < 0`.
pub open spec fn crossing_spec(near_after_far: bool, far_behind: bool, near_behind: bool) -> Option<Crossing> {
    if near_after_far || far_behind {
        None
    } else if near_behind {
        Some(Crossing::Exit)
    } else {
        Some(Crossing::Entry)
    }
}

impl Crossing {
    /// Decides the slab test: a miss when the slabs do not overlap or the
    /// box lies wholly behind the origin; the exit when the origin is inside
    /// the box; the entry otherwise.
    pub fn decide(near_after_far: bool, far_behind: bool, near_behind: bool) -> (c: Option<Crossing>)
        ensures
            c == crossing_spec(near_after_far, far_behind, near_behind),
    {
        if near_after_far || far_behind {
            None
        } else if near_behind {
            Some(Crossing::Exit)
        } else {
            Some(Crossing::Entry)
        }
    }
}

/// A ray whose origin lies inside the box has its entry behind it
/// (`t_near < 0`) and its exit ahead of it (`t_far >= 0`, so neither
/// `t_near > t_far` nor `t_far < 0`): it hits and reports the exit. No ray
/// with its entry behind its origin reports the entry.
pub proof fn lemma_inside_reports_exit()
    ensures
        crossing_spec(false, false, true) == Some(Crossing::Exit),
        forall|near_after_far: bool, far_behind: bool|
            #[trigger] crossing_spec(near_after_far, far_behind, true) != Some(Crossing::Entry),
{
}

} // verus!
