use vstd::arithmetic::power2::{lemma2_to64, pow2};
use vstd::prelude::*;

verus! {

/// An integer point of the lattice. Scalar lattices keep `y` at zero.
#[derive(Clone, Copy, Debug, PartialEq, Eq, Structural)]
pub struct LatticePoint {
    pub x: i64,
    pub y: i64,
}

/// The closed set of supported dimensions.
#[derive(Clone, Copy, Debug, PartialEq, Eq, Structural)]
pub enum Dimension {
    /// One axis; two corners per cell.
    Scalar,
    /// Two axes; four corners per cell.
    Planar,
}

/// The corners of the cell whose truncated base is `(bx, by)`, in the order
/// in which influences are blended: along x first, then along y.
pub open spec fn corner_seq(dim: Dimension, bx: int, by: int) -> Seq<LatticePoint> {
    match dim {
        Dimension::Scalar => seq![
            LatticePoint { x: bx as i64, y: 0 },
            LatticePoint { x: (bx + 1) as i64, y: 0 },
        ],
        Dimension::Planar => seq![
            LatticePoint { x: bx as i64, y: by as i64 },
            LatticePoint { x: (bx + 1) as i64, y: by as i64 },
            LatticePoint { x: bx as i64, y: (by + 1) as i64 },
            LatticePoint { x: (bx + 1) as i64, y: (by + 1) as i64 },
        ],
    }
}

/// The corners of one cell are pairwise distinct.
pub proof fn lemma_corners_distinct(dim: Dimension, bx: int, by: int)
    requires
        i32::MIN <= bx <= i32::MAX,
        i32::MIN <= by <= i32::MAX,
    ensures
        corner_seq(dim, bx, by).no_duplicates(),
{
    let cs = corner_seq(dim, bx, by);
    assert forall|i: int, j: int| 0 <= i < cs.len() && 0 <= j < cs.len() && i != j implies cs[i]
        != cs[j] by {}
}

impl Dimension {
    /// Number of axes.
    pub open spec fn spec_axes(self) -> nat {
        match self {
            Dimension::Scalar => 1,
            Dimension::Planar => 2,
        }
    }

    /// Number of corners of one cell: two to the number of axes.
    pub open spec fn spec_corner_count(self) -> nat {
        match self {
            Dimension::Scalar => 2,
            Dimension::Planar => 4,
        }
    }

    pub fn axes(&self) -> (r: usize)
        ensures
            r == self.spec_axes(),
    {
        match self {
            Dimension::Scalar => 1,
            Dimension::Planar => 2,
        }
    }

    pub fn corner_count(&self) -> (r: usize)
        ensures
            r == self.spec_corner_count(),
            r == pow2(self.spec_axes()),
    {
        proof {
            lemma2_to64();
        }
        match self {
            Dimension::Scalar => 2,
            Dimension::Planar => 4,
        }
    }

    /// The corners of the cell whose base is `(bx, by)`, the coordinates of
    /// the query point truncated toward zero. A Scalar cell ignores `by`.
    /// For a negative coordinate truncation is not the floor, so the corners
    /// then lie on the far side of the point (-0.5 gives 0 and 1).
    pub fn corners(&self, bx: i32, by: i32) -> (r: Vec<LatticePoint>)
        ensures
            r@ == corner_seq(*self, bx as int, by as int),
            r@.len() == self.spec_corner_count(),
    {
        let x0: i64 = bx as i64;
        let y0: i64 = by as i64;
        match self {
            Dimension::Scalar => vec![
                LatticePoint { x: x0, y: 0 },
                LatticePoint { x: x0 + 1, y: 0 },
            ],
            Dimension::Planar => vec![
                LatticePoint { x: x0, y: y0 },
                LatticePoint { x: x0 + 1, y: y0 },
                LatticePoint { x: x0, y: y0 + 1 },
                LatticePoint { x: x0 + 1, y: y0 + 1 },
            ],
        }
    }
}

} // verus!
