use vstd::prelude::*;

verus! {

/// Clockwise rotation applied to a page, in quarter turns.
#[derive(Clone, Copy, PartialEq, Eq, Debug, Structural)]
pub enum Rotation {
    R0,
    R90,
    R180,
    R270,
}

impl Rotation {
    /// Number of clockwise quarter turns this rotation stands for.
    pub open spec fn quarter_turns(self) -> int {
        match self {
            Rotation::R0 => 0,
            Rotation::R90 => 1,
            Rotation::R180 => 2,
            Rotation::R270 => 3,
        }
    }

    /// The rotation one quarter turn further clockwise.
    pub open spec fn turned_cw(self) -> Rotation {
        match self {
            Rotation::R0 => Rotation::R90,
            Rotation::R90 => Rotation::R180,
            Rotation::R180 => Rotation::R270,
            Rotation::R270 => Rotation::R0,
        }
    }

    /// The rotation one quarter turn further counter-clockwise.
    pub open spec fn turned_ccw(self) -> Rotation {
        match self {
            Rotation::R0 => Rotation::R270,
            Rotation::R90 => Rotation::R0,
            Rotation::R180 => Rotation::R90,
            Rotation::R270 => Rotation::R180,
        }
    }

    /// One more quarter turn clockwise.
    pub fn cw(self) -> (r: Self)
        ensures
            r == self.turned_cw(),
            r.quarter_turns() == (self.quarter_turns() + 1) % 4,
    {
        match self {
            Rotation::R0 => Rotation::R90,
            Rotation::R90 => Rotation::R180,
            Rotation::R180 => Rotation::R270,
            Rotation::R270 => Rotation::R0,
        }
    }

    /// One more quarter turn counter-clockwise.
    pub fn ccw(self) -> (r: Self)
        ensures
            r == self.turned_ccw(),
            r.quarter_turns() == (self.quarter_turns() + 3) % 4,
    {
        match self {
            Rotation::R0 => Rotation::R270,
            Rotation::R90 => Rotation::R0,
            Rotation::R180 => Rotation::R90,
            Rotation::R270 => Rotation::R180,
        }
    }
}

/// A rotation is fixed by its number of quarter turns.
pub proof fn law_quarter_turns_determine(a: Rotation, b: Rotation)
    ensures
        0 <= a.quarter_turns() < 4,
        a.quarter_turns() == b.quarter_turns() <==> a == b,
{
}

/// Turning clockwise and then counter-clockwise, in either order, leaves the rotation
/// as it was.
pub proof fn law_turns_undo(r: Rotation)
    ensures
        r.turned_cw().turned_ccw() == r,
        r.turned_ccw().turned_cw() == r,
{
}

/// Four clockwise quarter turns make a full turn.
pub proof fn law_full_turn(r: Rotation)
    ensures
        r.turned_cw().turned_cw().turned_cw().turned_cw() == r,
        r.turned_ccw().turned_ccw().turned_ccw().turned_ccw() == r,
{
}

} // verus!
