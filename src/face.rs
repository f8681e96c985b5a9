use vstd::prelude::*;

verus! {

/// A coordinate axis.
#[derive(Debug, Clone, Copy, PartialEq, Eq, Structural)]
pub enum Axis {
    X,
    Y,
    Z,
}

/// One of the two corners of a box along an axis.
#[derive(Debug, Clone, Copy, PartialEq, Eq, Structural)]
pub enum Bound {
    Min,
    Max,
}

/// A face of an axis-aligned box, named by its outward normal.
#[derive(Debug, Clone, Copy, PartialEq, Eq, Structural)]
pub enum Face {
    PosX,
    NegX,
    PosY,
    NegY,
    PosZ,
    NegZ,
}

/// How a texture coordinate is read off a hit point: the offset of the
/// point from the box's `bound` corner along `axis`, divided by the box's
/// extent along that axis.
#[derive(Debug, Clone, Copy, PartialEq, Eq, Structural)]
pub struct UvRule {
    pub axis: Axis,
    pub bound: Bound,
}

/// The axis whose face lies nearest a hit point, from the pairwise
/// comparisons of the per-axis boundary distances (`x_ge_y` is
/// `dist_x >= dist_y`, and so on). X is taken first, then Y, then Z.
pub open spec fn face_axis_spec(x_ge_y: bool, x_ge_z: bool, y_ge_x: bool, y_ge_z: bool) -> Axis {
    if x_ge_y && x_ge_z {
        Axis::X
    } else if y_ge_x && y_ge_z {
        Axis::Y
    } else {
        Axis::Z
    }
}

/// The face on `axis` on the side that `positive` names.
pub open spec fn face_spec(axis: Axis, positive: bool) -> Face {
    match axis {
        Axis::X => if positive { Face::PosX } else { Face::NegX },
        Axis::Y => if positive { Face::PosY } else { Face::NegY },
        Axis::Z => if positive { Face::PosZ } else { Face::NegZ },
    }
}

impl Face {
    /// Picks the face axis with priority X, then Y, then Z, each taken when
    /// its distance is at least each of the others.
    pub fn nearest_axis(x_ge_y: bool, x_ge_z: bool, y_ge_x: bool, y_ge_z: bool) -> (a: Axis)
        ensures
            a == face_axis_spec(x_ge_y, x_ge_z, y_ge_x, y_ge_z),
    {
        if x_ge_y && x_ge_z {
            Axis::X
        } else if y_ge_x && y_ge_z {
            Axis::Y
        } else {
            Axis::Z
        }
    }

    /// The face on `axis`; `positive` says whether the hit point lies
    /// strictly beyond the center on that axis.
    pub fn on_axis(axis: Axis, positive: bool) -> (f: Face)
        ensures
            f == face_spec(axis, positive),
    {
        match axis {
            Axis::X => if positive { Face::PosX } else { Face::NegX },
            Axis::Y => if positive { Face::PosY } else { Face::NegY },
            Axis::Z => if positive { Face::PosZ } else { Face::NegZ },
        }
    }

    pub open spec fn axis_spec(self) -> Axis {
        match self {
            Face::PosX | Face::NegX => Axis::X,
            Face::PosY | Face::NegY => Axis::Y,
            Face::PosZ | Face::NegZ => Axis::Z,
        }
    }

    pub open spec fn is_positive_spec(self) -> bool {
        self is PosX || self is PosY || self is PosZ
    }

    /// The outward unit normal, as three components in {-1, 0, 1}.
    pub open spec fn normal_spec(self) -> (i8, i8, i8) {
        let s: i8 = if self.is_positive_spec() { 1i8 } else { -1i8 };
        match self.axis_spec() {
            Axis::X => (s, 0, 0),
            Axis::Y => (0, s, 0),
            Axis::Z => (0, 0, s),
        }
    }

    /// The outward unit normal of the face.
    pub fn normal(&self) -> (n: (i8, i8, i8))
        ensures
            n == self.normal_spec(),
    {
        match self {
            Face::PosX => (1, 0, 0),
            Face::NegX => (-1, 0, 0),
            Face::PosY => (0, 1, 0),
            Face::NegY => (0, -1, 0),
            Face::PosZ => (0, 0, 1),
            Face::NegZ => (0, 0, -1),
        }
    }

    /// The rule for `u`: along Z from the min corner on the +X face, along Z
    /// from the max corner on the -X face, and along X from the min corner on
    /// every other face.
    pub open spec fn u_rule_spec(self) -> UvRule {
        match self {
            Face::PosX => UvRule { axis: Axis::Z, bound: Bound::Min },
            Face::NegX => UvRule { axis: Axis::Z, bound: Bound::Max },
            _ => UvRule { axis: Axis::X, bound: Bound::Min },
        }
    }

    /// The rule for `v`: along Z from the min corner on the +Y face, along Z
    /// from the max corner on the -Y face, and along Y from the min corner on
    /// every other face.
    pub open spec fn v_rule_spec(self) -> UvRule {
        match self {
            Face::PosY => UvRule { axis: Axis::Z, bound: Bound::Min },
            Face::NegY => UvRule { axis: Axis::Z, bound: Bound::Max },
            _ => UvRule { axis: Axis::Y, bound: Bound::Min },
        }
    }

    pub fn u_rule(&self) -> (r: UvRule)
        ensures
            r == self.u_rule_spec(),
    {
        match self {
            Face::PosX => UvRule { axis: Axis::Z, bound: Bound::Min },
            Face::NegX => UvRule { axis: Axis::Z, bound: Bound::Max },
            _ => UvRule { axis: Axis::X, bound: Bound::Min },
        }
    }

    pub fn v_rule(&self) -> (r: UvRule)
        ensures
            r == self.v_rule_spec(),
    {
        match self {
            Face::PosY => UvRule { axis: Axis::Z, bound: Bound::Min },
            Face::NegY => UvRule { axis: Axis::Z, bound: Bound::Max },
            _ => UvRule { axis: Axis::Y, bound: Bound::Min },
        }
    }
}

/// The face picked from the boundary comparisons and the side of the hit
/// point lies on the chosen axis, and its normal is the unit vector along
/// that axis that points to the hit point's side.
pub proof fn lemma_face_normal(x_ge_y: bool, x_ge_z: bool, y_ge_x: bool, y_ge_z: bool, positive: bool)
    ensures ({
        let a = face_axis_spec(x_ge_y, x_ge_z, y_ge_x, y_ge_z);
        let f = face_spec(a, positive);
        let n = f.normal_spec();
        let s: i8 = if positive { 1i8 } else { -1i8 };
        &&& f.axis_spec() == a
        &&& f.is_positive_spec() == positive
        &&& n == match a {
            Axis::X => (s, 0i8, 0i8),
            Axis::Y => (0i8, s, 0i8),
            Axis::Z => (0i8, 0i8, s),
        }
    }),
{
}

} // verus!
