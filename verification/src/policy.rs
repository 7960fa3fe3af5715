//! Direction policy: a pure mapping from the focused window's dimensions to
//! an optional tiling-direction command.

use vstd::prelude::*;

verus! {

/// The axis along which sibling windows are arranged.
#[derive(Clone, Copy, Debug, PartialEq, Eq, Structural)]
pub enum Direction {
    Vertical,
    Horizontal,
}

/// What `decide` returns: a window taller than wide asks for a vertical
/// split, a window wider than tall for a horizontal one, and an exact
/// square for nothing at all.
pub open spec fn spec_decide(width: u64, height: u64) -> Option<Direction> {
    if width < height {
        Some(Direction::Vertical)
    } else if width > height {
        Some(Direction::Horizontal)
    } else {
        None
    }
}

/// Maps the focused window's dimensions to the tiling direction to request,
/// or `None` when the window is an exact square (so that repeated events on
/// the same square never oscillate).  The arguments are dimension keys,
/// which order and compare equal exactly as the dimensions they encode, so
/// the choice is the same as on the dimensions themselves.
pub fn decide(width: u64, height: u64) -> (r: Option<Direction>)
    ensures
        r == spec_decide(width, height),
{
    if width < height {
        Some(Direction::Vertical)
    } else if width > height {
        Some(Direction::Horizontal)
    } else {
        None
    }
}

/// The policy is deterministic and never ambiguous: two calls on the same
/// dimensions agree, and no pair of dimensions ever yields both a vertical
/// and a horizontal request.
pub proof fn lemma_decide_deterministic(w1: u64, h1: u64, w2: u64, h2: u64)
    requires
        w1 == w2,
        h1 == h2,
    ensures
        spec_decide(w1, h1) == spec_decide(w2, h2),
        !(spec_decide(w1, h1) == Some(Direction::Vertical) && spec_decide(w2, h2)
            == Some(Direction::Horizontal)),
{
}

/// The policy is antisymmetric: swapping width and height never produces the
/// same answer unless the window is square, and on a square both answers are
/// empty.
pub proof fn lemma_decide_antisymmetric(w: u64, h: u64)
    ensures
        (spec_decide(w, h) == spec_decide(h, w)) <==> w == h,
        w == h ==> spec_decide(w, h) is None,
{
}

} // verus!
