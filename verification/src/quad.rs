//! The quad that fills the screen: four corners, drawn as a triangle strip.
use vstd::prelude::*;

verus! {

/// How many corners the quad has.
pub const CORNERS: usize = 4;

/// The corners of the quad in clip space, in strip order: the first three
/// make one triangle, the last three the other.
pub open spec fn quad() -> Seq<(i8, i8)> {
    seq![(-1i8, -1i8), (1i8, -1i8), (-1i8, 1i8), (1i8, 1i8)]
}

/// The corners of the quad, in strip order.
pub fn corners() -> (positions: Vec<(i8, i8)>)
    ensures
        positions@ == quad(),
{
    let positions: Vec<(i8, i8)> = vec![(-1, -1), (1, -1), (-1, 1), (1, 1)];
    positions
}

/// A corner of the square that reaches from -1 to 1 in both directions,
/// which is all of clip space.
pub open spec fn square_corner(position: (i8, i8)) -> bool {
    (position.0 == -1 || position.0 == 1) && (position.1 == -1 || position.1 == 1)
}

/// The quad fills the screen: its corners are the four corners of clip
/// space, each of them once.
pub proof fn lemma_quad_fills_the_screen()
    ensures
        quad().len() == CORNERS,
        forall|position: (i8, i8)| square_corner(position) <==> #[trigger] quad().contains(position),
        forall|i: int, j: int| 0 <= i < j < quad().len() ==> quad()[i] != quad()[j],
{
}

} // verus!
