//! Orientations and axes: the directions a group can arrange its children in.

use vstd::prelude::*;

verus! {

/// One of the two dimensions of the screen.
#[derive(Clone, Copy, Debug, PartialEq, Eq, Structural, Hash)]
pub enum Axis {
    Horizontal,
    Vertical,
}

/// The direction in which a group lays out its children. The four values are
/// ordered clockwise: left-to-right, top-to-bottom, right-to-left,
/// bottom-to-top.
#[derive(Clone, Copy, Debug, PartialEq, Eq, Structural, Hash)]
pub enum Orientation {
    LeftToRight,
    TopToBottom,
    RightToLeft,
    BottomToTop,
}

impl Axis {
    /// The other axis.
    pub open spec fn spec_flipped(&self) -> Axis {
        match *self {
            Axis::Horizontal => Axis::Vertical,
            Axis::Vertical => Axis::Horizontal,
        }
    }

    /// Returns the other axis.
    #[verifier::when_used_as_spec(spec_flipped)]
    pub fn flipped(&self) -> (out: Axis)
        ensures
            out == self.spec_flipped(),
    {
        match self {
            Axis::Horizontal => Axis::Vertical,
            Axis::Vertical => Axis::Horizontal,
        }
    }

    /// Flipping an axis twice gives the axis back.
    pub proof fn flipped_is_involution(self)
        ensures
            self.spec_flipped().spec_flipped() == self,
            self.spec_flipped() != self,
    {
    }
}

impl Orientation {
    /// Position of the orientation in the clockwise cycle, from 0 to 3.
    pub open spec fn turn(self) -> int {
        match self {
            Orientation::LeftToRight => 0,
            Orientation::TopToBottom => 1,
            Orientation::RightToLeft => 2,
            Orientation::BottomToTop => 3,
        }
    }

    /// The orientation at position `turn` modulo 4 of the clockwise cycle.
    pub open spec fn from_turn(turn: int) -> Orientation {
        let t = turn % 4;
        if t == 0 {
            Orientation::LeftToRight
        } else if t == 1 {
            Orientation::TopToBottom
        } else if t == 2 {
            Orientation::RightToLeft
        } else {
            Orientation::BottomToTop
        }
    }

    /// The orientation reached after `rotations` clockwise quarter turns
    /// (counter-clockwise where negative).
    pub open spec fn rotated(self, rotations: int) -> Orientation {
        Orientation::from_turn(self.turn() + rotations)
    }

    /// Whether logical order runs against storage order.
    pub open spec fn spec_reversed(&self) -> bool {
        *self == Orientation::RightToLeft || *self == Orientation::BottomToTop
    }

    /// The axis along which children are arranged.
    pub open spec fn spec_axis(&self) -> Axis {
        if *self == Orientation::LeftToRight || *self == Orientation::RightToLeft {
            Axis::Horizontal
        } else {
            Axis::Vertical
        }
    }

    /// Returns whether this orientation is reversed: right-to-left and
    /// bottom-to-top are.
    #[verifier::when_used_as_spec(spec_reversed)]
    pub fn reversed(&self) -> (out: bool)
        ensures
            out == self.spec_reversed(),
    {
        match self {
            Orientation::LeftToRight | Orientation::TopToBottom => false,
            Orientation::RightToLeft | Orientation::BottomToTop => true,
        }
    }

    /// Returns the axis of this orientation: horizontal for left-to-right and
    /// right-to-left, vertical for the other two.
    #[verifier::when_used_as_spec(spec_axis)]
    pub fn axis(&self) -> (out: Axis)
        ensures
            out == self.spec_axis(),
    {
        match self {
            Orientation::LeftToRight | Orientation::RightToLeft => Axis::Horizontal,
            Orientation::TopToBottom | Orientation::BottomToTop => Axis::Vertical,
        }
    }

    /// Returns the orientation `rotations` quarter turns clockwise of this one.
    pub fn rotated_by(&self, rotations: i32) -> (out: Orientation)
        ensures
            out == self.rotated(rotations as int),
    {
        let current: i64 = match self {
            Orientation::LeftToRight => 0,
            Orientation::TopToBottom => 1,
            Orientation::RightToLeft => 2,
            Orientation::BottomToTop => 3,
        };
        let sum: i64 = current + (rotations as i64);
        let shifted: i64 = sum + 2147483648;
        let turn: i64 = shifted % 4;
        assert(turn == (self.turn() + rotations as int) % 4) by {
            assert(shifted == self.turn() + rotations as int + 4 * 536870912);
            assert((self.turn() + rotations as int + 4 * 536870912) % 4 == (self.turn() + rotations as int) % 4) by (nonlinear_arith);
        }
        if turn == 0 {
            Orientation::LeftToRight
        } else if turn == 1 {
            Orientation::TopToBottom
        } else if turn == 2 {
            Orientation::RightToLeft
        } else {
            Orientation::BottomToTop
        }
    }

    /// A full turn changes nothing, and turns add up.
    pub proof fn rotation_laws(self, a: int, b: int)
        ensures
            self.rotated(0) == self,
            self.rotated(4) == self,
            self.rotated(a).rotated(b) == self.rotated(a + b),
            self.rotated(1).rotated(1).rotated(1).rotated(1) == self,
    {
        assert(Orientation::from_turn(self.turn()) == self);
        assert(Orientation::from_turn(self.turn() + a).turn() == (self.turn() + a) % 4);
        assert(((self.turn() + a) % 4 + b) % 4 == (self.turn() + a + b) % 4) by (nonlinear_arith);
    }
}

} // verus!
