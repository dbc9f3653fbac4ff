use vstd::prelude::*;

verus! {

/// One of the two bridged devices.
#[derive(Clone, Copy, Debug, PartialEq, Eq, Structural)]
pub enum Side {
    Left,
    Right,
}

impl Side {
    /// The other side.
    pub open spec fn opposite(self) -> Side {
        match self {
            Side::Left => Side::Right,
            Side::Right => Side::Left,
        }
    }

    pub fn flip(&self) -> (r: Side)
        ensures
            r == self.opposite(),
            r != *self,
    {
        match self {
            Side::Left => Side::Right,
            Side::Right => Side::Left,
        }
    }
}

/// Flipping a side twice gives the side back.
pub proof fn lemma_flip_involution(s: Side)
    ensures
        s.opposite().opposite() == s,
{
}

} // verus!
