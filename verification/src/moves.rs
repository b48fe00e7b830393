//! The move engine: the eight quarter-turn moves of the restricted move set,
//! their exact sticker permutations, and the laws they obey (the sticker
//! counts are preserved, a move and its inverse cancel, and four equal
//! quarter-turns restore the cube).

use vstd::prelude::*;

use crate::cube::center_count;
use crate::cube::color_count;
use crate::cube::corner_count;
use crate::cube::centers_valid;
use crate::cube::corners_valid;
use crate::cube::cube_valid;
use crate::cube::edges_valid;
use crate::cube::edge_count;
use crate::cube::Color;
use crate::cube::Cube3x3x3;
use crate::cube::Face;

verus! {

/// The eight legal quarter-turns: the top or bottom layer turned left or
/// right (as seen by a viewer facing the front face), and the left or right
/// layer turned up or down. The declaration order is the canonical order in
/// which the solver tries moves.
#[derive(Copy, Clone, Debug, PartialEq, Eq, Structural)]
pub enum Move {
    TopRotateLeft,
    TopRotateRight,
    BottomRotateLeft,
    BottomRotateRight,
    LeftRotateUp,
    LeftRotateDown,
    RightRotateUp,
    RightRotateDown,
}

/// The face rotated a quarter-turn clockwise, as seen in its own grid.
pub open spec fn rotated_cw(f: Face) -> Face {
    Face {
        top_left: f.bottom_left,
        top: f.left,
        top_right: f.top_left,
        left: f.bottom,
        center: f.center,
        right: f.top,
        bottom_left: f.bottom_right,
        bottom: f.right,
        bottom_right: f.top_right,
    }
}

/// The face rotated a quarter-turn counterclockwise, as seen in its own grid.
pub open spec fn rotated_ccw(f: Face) -> Face {
    Face {
        top_left: f.top_right,
        top: f.right,
        top_right: f.bottom_right,
        left: f.top,
        center: f.center,
        right: f.bottom,
        bottom_left: f.top_left,
        bottom: f.left,
        bottom_right: f.bottom_left,
    }
}

/// The face with its top row replaced by the stickers a, b, c (left to right).
pub open spec fn with_top_row(f: Face, a: Color, b: Color, c: Color) -> Face {
    Face {
        top_left: a,
        top: b,
        top_right: c,
        left: f.left,
        center: f.center,
        right: f.right,
        bottom_left: f.bottom_left,
        bottom: f.bottom,
        bottom_right: f.bottom_right,
    }
}

/// The face with its bottom row replaced by the stickers a, b, c (left to right).
pub open spec fn with_bottom_row(f: Face, a: Color, b: Color, c: Color) -> Face {
    Face {
        top_left: f.top_left,
        top: f.top,
        top_right: f.top_right,
        left: f.left,
        center: f.center,
        right: f.right,
        bottom_left: a,
        bottom: b,
        bottom_right: c,
    }
}

/// The face with its left column replaced by the stickers a, b, c (top to bottom).
pub open spec fn with_left_col(f: Face, a: Color, b: Color, c: Color) -> Face {
    Face {
        top_left: a,
        top: f.top,
        top_right: f.top_right,
        left: b,
        center: f.center,
        right: f.right,
        bottom_left: c,
        bottom: f.bottom,
        bottom_right: f.bottom_right,
    }
}

/// The face with its right column replaced by the stickers a, b, c (top to bottom).
pub open spec fn with_right_col(f: Face, a: Color, b: Color, c: Color) -> Face {
    Face {
        top_left: f.top_left,
        top: f.top,
        top_right: a,
        left: f.left,
        center: f.center,
        right: b,
        bottom_left: f.bottom_left,
        bottom: f.bottom,
        bottom_right: c,
    }
}

/// The exact sticker permutation of each move. Turning the top layer left
/// carries the front face's top row to the left face (and on around the
/// ring), and turns the top face clockwise in its own grid; the other moves
/// are read the same way. Centers never move.
#[verifier::opaque]
pub open spec fn spec_apply(c: Cube3x3x3, m: Move) -> Cube3x3x3 {
    match m {
        Move::TopRotateLeft => Cube3x3x3 {
            front: with_top_row(c.front, c.right.top_left, c.right.top, c.right.top_right),
            left: with_top_row(c.left, c.front.top_left, c.front.top, c.front.top_right),
            back: with_top_row(c.back, c.left.top_left, c.left.top, c.left.top_right),
            right: with_top_row(c.right, c.back.top_left, c.back.top, c.back.top_right),
            top: rotated_cw(c.top),
            bottom: c.bottom,
        },
        Move::TopRotateRight => Cube3x3x3 {
            front: with_top_row(c.front, c.left.top_left, c.left.top, c.left.top_right),
            left: with_top_row(c.left, c.back.top_left, c.back.top, c.back.top_right),
            back: with_top_row(c.back, c.right.top_left, c.right.top, c.right.top_right),
            right: with_top_row(c.right, c.front.top_left, c.front.top, c.front.top_right),
            top: rotated_ccw(c.top),
            bottom: c.bottom,
        },
        Move::BottomRotateLeft => Cube3x3x3 {
            front: with_bottom_row(
                c.front,
                c.right.bottom_left,
                c.right.bottom,
                c.right.bottom_right,
            ),
            left: with_bottom_row(
                c.left,
                c.front.bottom_left,
                c.front.bottom,
                c.front.bottom_right,
            ),
            back: with_bottom_row(c.back, c.left.bottom_left, c.left.bottom, c.left.bottom_right),
            right: with_bottom_row(
                c.right,
                c.back.bottom_left,
                c.back.bottom,
                c.back.bottom_right,
            ),
            top: c.top,
            bottom: rotated_ccw(c.bottom),
        },
        Move::BottomRotateRight => Cube3x3x3 {
            front: with_bottom_row(
                c.front,
                c.left.bottom_left,
                c.left.bottom,
                c.left.bottom_right,
            ),
            left: with_bottom_row(c.left, c.back.bottom_left, c.back.bottom, c.back.bottom_right),
            back: with_bottom_row(
                c.back,
                c.right.bottom_left,
                c.right.bottom,
                c.right.bottom_right,
            ),
            right: with_bottom_row(
                c.right,
                c.front.bottom_left,
                c.front.bottom,
                c.front.bottom_right,
            ),
            top: c.top,
            bottom: rotated_cw(c.bottom),
        },
        Move::LeftRotateUp => Cube3x3x3 {
            front: with_left_col(c.front, c.bottom.top_left, c.bottom.left, c.bottom.bottom_left),
            left: rotated_ccw(c.left),
            back: with_right_col(c.back, c.top.bottom_left, c.top.left, c.top.top_left),
            right: c.right,
            top: with_left_col(c.top, c.front.top_left, c.front.left, c.front.bottom_left),
            bottom: with_left_col(
                c.bottom,
                c.back.bottom_right,
                c.back.right,
                c.back.top_right,
            ),
        },
        Move::LeftRotateDown => Cube3x3x3 {
            front: with_left_col(c.front, c.top.top_left, c.top.left, c.top.bottom_left),
            left: rotated_cw(c.left),
            back: with_right_col(c.back, c.bottom.bottom_left, c.bottom.left, c.bottom.top_left),
            right: c.right,
            top: with_left_col(c.top, c.back.bottom_right, c.back.right, c.back.top_right),
            bottom: with_left_col(
                c.bottom,
                c.front.top_left,
                c.front.left,
                c.front.bottom_left,
            ),
        },
        Move::RightRotateUp => Cube3x3x3 {
            front: with_right_col(
                c.front,
                c.bottom.top_right,
                c.bottom.right,
                c.bottom.bottom_right,
            ),
            left: c.left,
            back: with_left_col(c.back, c.top.bottom_right, c.top.right, c.top.top_right),
            right: rotated_cw(c.right),
            top: with_right_col(c.top, c.front.top_right, c.front.right, c.front.bottom_right),
            bottom: with_right_col(
                c.bottom,
                c.back.bottom_left,
                c.back.left,
                c.back.top_left,
            ),
        },
        Move::RightRotateDown => Cube3x3x3 {
            front: with_right_col(c.front, c.top.top_right, c.top.right, c.top.bottom_right),
            left: c.left,
            back: with_left_col(
                c.back,
                c.bottom.bottom_right,
                c.bottom.right,
                c.bottom.top_right,
            ),
            right: rotated_ccw(c.right),
            top: with_right_col(c.top, c.back.bottom_left, c.back.left, c.back.top_left),
            bottom: with_right_col(
                c.bottom,
                c.front.top_right,
                c.front.right,
                c.front.bottom_right,
            ),
        },
    }
}

/// The move that undoes the given move.
pub open spec fn spec_inverse(m: Move) -> Move {
    match m {
        Move::TopRotateLeft => Move::TopRotateRight,
        Move::TopRotateRight => Move::TopRotateLeft,
        Move::BottomRotateLeft => Move::BottomRotateRight,
        Move::BottomRotateRight => Move::BottomRotateLeft,
        Move::LeftRotateUp => Move::LeftRotateDown,
        Move::LeftRotateDown => Move::LeftRotateUp,
        Move::RightRotateUp => Move::RightRotateDown,
        Move::RightRotateDown => Move::RightRotateUp,
    }
}

/// The position of a move in the canonical (declaration) order.
pub open spec fn move_index(m: Move) -> int {
    match m {
        Move::TopRotateLeft => 0,
        Move::TopRotateRight => 1,
        Move::BottomRotateLeft => 2,
        Move::BottomRotateRight => 3,
        Move::LeftRotateUp => 4,
        Move::LeftRotateDown => 5,
        Move::RightRotateUp => 6,
        Move::RightRotateDown => 7,
    }
}

impl Move {
    /// The move that undoes this one.
    pub fn inverse(self) -> (r: Move)
        ensures
            r == spec_inverse(self),
    {
        match self {
            Move::TopRotateLeft => Move::TopRotateRight,
            Move::TopRotateRight => Move::TopRotateLeft,
            Move::BottomRotateLeft => Move::BottomRotateRight,
            Move::BottomRotateRight => Move::BottomRotateLeft,
            Move::LeftRotateUp => Move::LeftRotateDown,
            Move::LeftRotateDown => Move::LeftRotateUp,
            Move::RightRotateUp => Move::RightRotateDown,
            Move::RightRotateDown => Move::RightRotateUp,
        }
    }
}

/// The move at the given position of the canonical order.
pub fn move_at(i: usize) -> (m: Move)
    requires
        i < 8,
    ensures
        move_index(m) == i as int,
{
    if i == 0 {
        Move::TopRotateLeft
    } else if i == 1 {
        Move::TopRotateRight
    } else if i == 2 {
        Move::BottomRotateLeft
    } else if i == 3 {
        Move::BottomRotateRight
    } else if i == 4 {
        Move::LeftRotateUp
    } else if i == 5 {
        Move::LeftRotateDown
    } else if i == 6 {
        Move::RightRotateUp
    } else {
        Move::RightRotateDown
    }
}

/// Every move sits at one of the eight canonical positions.
pub proof fn lemma_move_index_range(m: Move)
    ensures
        0 <= move_index(m) < 8,
{
}

/// Two moves at the same canonical position are the same move.
pub proof fn lemma_move_index_injective(a: Move, b: Move)
    requires
        move_index(a) == move_index(b),
    ensures
        a == b,
{
}

impl Cube3x3x3 {
    /// Turn the left column of a face into a fresh face.
    fn set_left_col(f: &Face, a: Color, b: Color, c: Color) -> (r: Face)
        ensures
            r == with_left_col(*f, a, b, c),
    {
        Face {
            top_left: a,
            top: f.top,
            top_right: f.top_right,
            left: b,
            center: f.center,
            right: f.right,
            bottom_left: c,
            bottom: f.bottom,
            bottom_right: f.bottom_right,
        }
    }

    /// Turn the right column of a face into a fresh face.
    fn set_right_col(f: &Face, a: Color, b: Color, c: Color) -> (r: Face)
        ensures
            r == with_right_col(*f, a, b, c),
    {
        Face {
            top_left: f.top_left,
            top: f.top,
            top_right: a,
            left: f.left,
            center: f.center,
            right: b,
            bottom_left: f.bottom_left,
            bottom: f.bottom,
            bottom_right: c,
        }
    }

    /// Turn the top row of a face into a fresh face.
    fn set_top_row(f: &Face, a: Color, b: Color, c: Color) -> (r: Face)
        ensures
            r == with_top_row(*f, a, b, c),
    {
        Face {
            top_left: a,
            top: b,
            top_right: c,
            left: f.left,
            center: f.center,
            right: f.right,
            bottom_left: f.bottom_left,
            bottom: f.bottom,
            bottom_right: f.bottom_right,
        }
    }

    /// Turn the bottom row of a face into a fresh face.
    fn set_bottom_row(f: &Face, a: Color, b: Color, c: Color) -> (r: Face)
        ensures
            r == with_bottom_row(*f, a, b, c),
    {
        Face {
            top_left: f.top_left,
            top: f.top,
            top_right: f.top_right,
            left: f.left,
            center: f.center,
            right: f.right,
            bottom_left: a,
            bottom: b,
            bottom_right: c,
        }
    }

    /// Rotate a face clockwise in its own grid.
    fn rotate_cw(f: &Face) -> (r: Face)
        ensures
            r == rotated_cw(*f),
    {
        Face {
            top_left: f.bottom_left,
            top: f.left,
            top_right: f.top_left,
            left: f.bottom,
            center: f.center,
            right: f.top,
            bottom_left: f.bottom_right,
            bottom: f.right,
            bottom_right: f.top_right,
        }
    }

    /// Rotate a face counterclockwise in its own grid.
    fn rotate_ccw(f: &Face) -> (r: Face)
        ensures
            r == rotated_ccw(*f),
    {
        Face {
            top_left: f.top_right,
            top: f.right,
            top_right: f.bottom_right,
            left: f.top,
            center: f.center,
            right: f.bottom,
            bottom_left: f.top_left,
            bottom: f.left,
            bottom_right: f.bottom_left,
        }
    }

    fn apply_tl(&self) -> (r: Cube3x3x3)
        ensures
            r == spec_apply(*self, Move::TopRotateLeft),
    {
        proof {
            reveal(spec_apply);
        }
        Cube3x3x3 {
        front: Self::set_top_row(
        &self.front,
        self.right.top_left,
        self.right.top,
        self.right.top_right,
        ),
        left: Self::set_top_row(
        &self.left,
        self.front.top_left,
        self.front.top,
        self.front.top_right,
        ),
        back: Self::set_top_row(
        &self.back,
        self.left.top_left,
        self.left.top,
        self.left.top_right,
        ),
        right: Self::set_top_row(
        &self.right,
        self.back.top_left,
        self.back.top,
        self.back.top_right,
        ),
        top: Self::rotate_cw(&self.top),
        bottom: self.bottom,
        }
    }

    fn apply_tr(&self) -> (r: Cube3x3x3)
        ensures
            r == spec_apply(*self, Move::TopRotateRight),
    {
        proof {
            reveal(spec_apply);
        }
        Cube3x3x3 {
        front: Self::set_top_row(
        &self.front,
        self.left.top_left,
        self.left.top,
        self.left.top_right,
        ),
        left: Self::set_top_row(
        &self.left,
        self.back.top_left,
        self.back.top,
        self.back.top_right,
        ),
        back: Self::set_top_row(
        &self.back,
        self.right.top_left,
        self.right.top,
        self.right.top_right,
        ),
        right: Self::set_top_row(
        &self.right,
        self.front.top_left,
        self.front.top,
        self.front.top_right,
        ),
        top: Self::rotate_ccw(&self.top),
        bottom: self.bottom,
        }
    }

    fn apply_bl(&self) -> (r: Cube3x3x3)
        ensures
            r == spec_apply(*self, Move::BottomRotateLeft),
    {
        proof {
            reveal(spec_apply);
        }
        Cube3x3x3 {
        front: Self::set_bottom_row(
        &self.front,
        self.right.bottom_left,
        self.right.bottom,
        self.right.bottom_right,
        ),
        left: Self::set_bottom_row(
        &self.left,
        self.front.bottom_left,
        self.front.bottom,
        self.front.bottom_right,
        ),
        back: Self::set_bottom_row(
        &self.back,
        self.left.bottom_left,
        self.left.bottom,
        self.left.bottom_right,
        ),
        right: Self::set_bottom_row(
        &self.right,
        self.back.bottom_left,
        self.back.bottom,
        self.back.bottom_right,
        ),
        top: self.top,
        bottom: Self::rotate_ccw(&self.bottom),
        }
    }

    fn apply_br(&self) -> (r: Cube3x3x3)
        ensures
            r == spec_apply(*self, Move::BottomRotateRight),
    {
        proof {
            reveal(spec_apply);
        }
        Cube3x3x3 {
        front: Self::set_bottom_row(
        &self.front,
        self.left.bottom_left,
        self.left.bottom,
        self.left.bottom_right,
        ),
        left: Self::set_bottom_row(
        &self.left,
        self.back.bottom_left,
        self.back.bottom,
        self.back.bottom_right,
        ),
        back: Self::set_bottom_row(
        &self.back,
        self.right.bottom_left,
        self.right.bottom,
        self.right.bottom_right,
        ),
        right: Self::set_bottom_row(
        &self.right,
        self.front.bottom_left,
        self.front.bottom,
        self.front.bottom_right,
        ),
        top: self.top,
        bottom: Self::rotate_cw(&self.bottom),
        }
    }

    fn apply_lu(&self) -> (r: Cube3x3x3)
        ensures
            r == spec_apply(*self, Move::LeftRotateUp),
    {
        proof {
            reveal(spec_apply);
        }
        Cube3x3x3 {
        front: Self::set_left_col(
        &self.front,
        self.bottom.top_left,
        self.bottom.left,
        self.bottom.bottom_left,
        ),
        left: Self::rotate_ccw(&self.left),
        back: Self::set_right_col(
        &self.back,
        self.top.bottom_left,
        self.top.left,
        self.top.top_left,
        ),
        right: self.right,
        top: Self::set_left_col(
        &self.top,
        self.front.top_left,
        self.front.left,
        self.front.bottom_left,
        ),
        bottom: Self::set_left_col(
        &self.bottom,
        self.back.bottom_right,
        self.back.right,
        self.back.top_right,
        ),
        }
    }

    fn apply_ld(&self) -> (r: Cube3x3x3)
        ensures
            r == spec_apply(*self, Move::LeftRotateDown),
    {
        proof {
            reveal(spec_apply);
        }
        Cube3x3x3 {
        front: Self::set_left_col(
        &self.front,
        self.top.top_left,
        self.top.left,
        self.top.bottom_left,
        ),
        left: Self::rotate_cw(&self.left),
        back: Self::set_right_col(
        &self.back,
        self.bottom.bottom_left,
        self.bottom.left,
        self.bottom.top_left,
        ),
        right: self.right,
        top: Self::set_left_col(
        &self.top,
        self.back.bottom_right,
        self.back.right,
        self.back.top_right,
        ),
        bottom: Self::set_left_col(
        &self.bottom,
        self.front.top_left,
        self.front.left,
        self.front.bottom_left,
        ),
        }
    }

    fn apply_ru(&self) -> (r: Cube3x3x3)
        ensures
            r == spec_apply(*self, Move::RightRotateUp),
    {
        proof {
            reveal(spec_apply);
        }
        Cube3x3x3 {
        front: Self::set_right_col(
        &self.front,
        self.bottom.top_right,
        self.bottom.right,
        self.bottom.bottom_right,
        ),
        left: self.left,
        back: Self::set_left_col(
        &self.back,
        self.top.bottom_right,
        self.top.right,
        self.top.top_right,
        ),
        right: Self::rotate_cw(&self.right),
        top: Self::set_right_col(
        &self.top,
        self.front.top_right,
        self.front.right,
        self.front.bottom_right,
        ),
        bottom: Self::set_right_col(
        &self.bottom,
        self.back.bottom_left,
        self.back.left,
        self.back.top_left,
        ),
        }
    }

    fn apply_rd(&self) -> (r: Cube3x3x3)
        ensures
            r == spec_apply(*self, Move::RightRotateDown),
    {
        proof {
            reveal(spec_apply);
        }
        Cube3x3x3 {
        front: Self::set_right_col(
        &self.front,
        self.top.top_right,
        self.top.right,
        self.top.bottom_right,
        ),
        left: self.left,
        back: Self::set_left_col(
        &self.back,
        self.bottom.bottom_right,
        self.bottom.right,
        self.bottom.top_right,
        ),
        right: Self::rotate_ccw(&self.right),
        top: Self::set_right_col(
        &self.top,
        self.back.bottom_left,
        self.back.left,
        self.back.top_left,
        ),
        bottom: Self::set_right_col(
        &self.bottom,
        self.front.top_right,
        self.front.right,
        self.front.bottom_right,
        ),
        }
    }

    /// Apply one quarter-turn, yielding the new cube. Pure and total: it
    /// never fails, and equal cubes always yield equal results.
    pub fn apply(&self, m: Move) -> (r: Cube3x3x3)
        ensures
            r == spec_apply(*self, m),
    {
        match m {
            Move::TopRotateLeft => self.apply_tl(),
            Move::TopRotateRight => self.apply_tr(),
            Move::BottomRotateLeft => self.apply_bl(),
            Move::BottomRotateRight => self.apply_br(),
            Move::LeftRotateUp => self.apply_lu(),
            Move::LeftRotateDown => self.apply_ld(),
            Move::RightRotateUp => self.apply_ru(),
            Move::RightRotateDown => self.apply_rd(),
        }
    }

}

/// No move creates or destroys a sticker color: after any move, every color
/// appears on exactly as many of the 54 stickers as before.
proof fn lemma_color_count_tl(c: Cube3x3x3, col: Color)
    ensures
        color_count(spec_apply(c, Move::TopRotateLeft), col) == color_count(c, col),
{
    reveal(spec_apply);
}

#[verifier::rlimit(100)]
proof fn lemma_role_counts_tl(c: Cube3x3x3, col: Color)
    ensures
        center_count(spec_apply(c, Move::TopRotateLeft), col) == center_count(c, col),
        edge_count(spec_apply(c, Move::TopRotateLeft), col) == edge_count(c, col),
        corner_count(spec_apply(c, Move::TopRotateLeft), col) == corner_count(c, col),
{
    reveal(spec_apply);
}
proof fn lemma_color_count_tr(c: Cube3x3x3, col: Color)
    ensures
        color_count(spec_apply(c, Move::TopRotateRight), col) == color_count(c, col),
{
    reveal(spec_apply);
}

#[verifier::rlimit(100)]
proof fn lemma_role_counts_tr(c: Cube3x3x3, col: Color)
    ensures
        center_count(spec_apply(c, Move::TopRotateRight), col) == center_count(c, col),
        edge_count(spec_apply(c, Move::TopRotateRight), col) == edge_count(c, col),
        corner_count(spec_apply(c, Move::TopRotateRight), col) == corner_count(c, col),
{
    reveal(spec_apply);
}
proof fn lemma_color_count_bl(c: Cube3x3x3, col: Color)
    ensures
        color_count(spec_apply(c, Move::BottomRotateLeft), col) == color_count(c, col),
{
    reveal(spec_apply);
}

#[verifier::rlimit(100)]
proof fn lemma_role_counts_bl(c: Cube3x3x3, col: Color)
    ensures
        center_count(spec_apply(c, Move::BottomRotateLeft), col) == center_count(c, col),
        edge_count(spec_apply(c, Move::BottomRotateLeft), col) == edge_count(c, col),
        corner_count(spec_apply(c, Move::BottomRotateLeft), col) == corner_count(c, col),
{
    reveal(spec_apply);
}
proof fn lemma_color_count_br(c: Cube3x3x3, col: Color)
    ensures
        color_count(spec_apply(c, Move::BottomRotateRight), col) == color_count(c, col),
{
    reveal(spec_apply);
}

#[verifier::rlimit(100)]
proof fn lemma_role_counts_br(c: Cube3x3x3, col: Color)
    ensures
        center_count(spec_apply(c, Move::BottomRotateRight), col) == center_count(c, col),
        edge_count(spec_apply(c, Move::BottomRotateRight), col) == edge_count(c, col),
        corner_count(spec_apply(c, Move::BottomRotateRight), col) == corner_count(c, col),
{
    reveal(spec_apply);
}
proof fn lemma_color_count_lu(c: Cube3x3x3, col: Color)
    ensures
        color_count(spec_apply(c, Move::LeftRotateUp), col) == color_count(c, col),
{
    reveal(spec_apply);
}

#[verifier::rlimit(100)]
proof fn lemma_role_counts_lu(c: Cube3x3x3, col: Color)
    ensures
        center_count(spec_apply(c, Move::LeftRotateUp), col) == center_count(c, col),
        edge_count(spec_apply(c, Move::LeftRotateUp), col) == edge_count(c, col),
        corner_count(spec_apply(c, Move::LeftRotateUp), col) == corner_count(c, col),
{
    reveal(spec_apply);
}
proof fn lemma_color_count_ld(c: Cube3x3x3, col: Color)
    ensures
        color_count(spec_apply(c, Move::LeftRotateDown), col) == color_count(c, col),
{
    reveal(spec_apply);
}

#[verifier::rlimit(100)]
proof fn lemma_role_counts_ld(c: Cube3x3x3, col: Color)
    ensures
        center_count(spec_apply(c, Move::LeftRotateDown), col) == center_count(c, col),
        edge_count(spec_apply(c, Move::LeftRotateDown), col) == edge_count(c, col),
        corner_count(spec_apply(c, Move::LeftRotateDown), col) == corner_count(c, col),
{
    reveal(spec_apply);
}
proof fn lemma_color_count_ru(c: Cube3x3x3, col: Color)
    ensures
        color_count(spec_apply(c, Move::RightRotateUp), col) == color_count(c, col),
{
    reveal(spec_apply);
}

#[verifier::rlimit(100)]
proof fn lemma_role_counts_ru(c: Cube3x3x3, col: Color)
    ensures
        center_count(spec_apply(c, Move::RightRotateUp), col) == center_count(c, col),
        edge_count(spec_apply(c, Move::RightRotateUp), col) == edge_count(c, col),
        corner_count(spec_apply(c, Move::RightRotateUp), col) == corner_count(c, col),
{
    reveal(spec_apply);
}
proof fn lemma_color_count_rd(c: Cube3x3x3, col: Color)
    ensures
        color_count(spec_apply(c, Move::RightRotateDown), col) == color_count(c, col),
{
    reveal(spec_apply);
}

#[verifier::rlimit(100)]
proof fn lemma_role_counts_rd(c: Cube3x3x3, col: Color)
    ensures
        center_count(spec_apply(c, Move::RightRotateDown), col) == center_count(c, col),
        edge_count(spec_apply(c, Move::RightRotateDown), col) == edge_count(c, col),
        corner_count(spec_apply(c, Move::RightRotateDown), col) == corner_count(c, col),
{
    reveal(spec_apply);
}

pub proof fn lemma_apply_preserves_color_count(c: Cube3x3x3, m: Move, col: Color)
    ensures
        color_count(spec_apply(c, m), col) == color_count(c, col),
{
    match m {
        Move::TopRotateLeft => lemma_color_count_tl(c, col),
        Move::TopRotateRight => lemma_color_count_tr(c, col),
        Move::BottomRotateLeft => lemma_color_count_bl(c, col),
        Move::BottomRotateRight => lemma_color_count_br(c, col),
        Move::LeftRotateUp => lemma_color_count_lu(c, col),
        Move::LeftRotateDown => lemma_color_count_ld(c, col),
        Move::RightRotateUp => lemma_color_count_ru(c, col),
        Move::RightRotateDown => lemma_color_count_rd(c, col),
    }
}

/// No move changes which stickers are centers: every face keeps its center.
pub proof fn lemma_apply_keeps_centers(c: Cube3x3x3, m: Move)
    ensures
        spec_apply(c, m).front.center == c.front.center,
        spec_apply(c, m).left.center == c.left.center,
        spec_apply(c, m).back.center == c.back.center,
        spec_apply(c, m).right.center == c.right.center,
        spec_apply(c, m).top.center == c.top.center,
        spec_apply(c, m).bottom.center == c.bottom.center,
{
    reveal(spec_apply);
    match m {
        Move::TopRotateLeft => {},
        Move::TopRotateRight => {},
        Move::BottomRotateLeft => {},
        Move::BottomRotateRight => {},
        Move::LeftRotateUp => {},
        Move::LeftRotateDown => {},
        Move::RightRotateUp => {},
        Move::RightRotateDown => {},
    }
}

/// Moves permute edge stickers among edge positions and corner stickers
/// among corner positions, so the per-role counts are preserved too.
pub proof fn lemma_apply_preserves_role_counts(c: Cube3x3x3, m: Move, col: Color)
    ensures
        center_count(spec_apply(c, m), col) == center_count(c, col),
        edge_count(spec_apply(c, m), col) == edge_count(c, col),
        corner_count(spec_apply(c, m), col) == corner_count(c, col),
{
    match m {
        Move::TopRotateLeft => lemma_role_counts_tl(c, col),
        Move::TopRotateRight => lemma_role_counts_tr(c, col),
        Move::BottomRotateLeft => lemma_role_counts_bl(c, col),
        Move::BottomRotateRight => lemma_role_counts_br(c, col),
        Move::LeftRotateUp => lemma_role_counts_lu(c, col),
        Move::LeftRotateDown => lemma_role_counts_ld(c, col),
        Move::RightRotateUp => lemma_role_counts_ru(c, col),
        Move::RightRotateDown => lemma_role_counts_rd(c, col),
    }
}

/// A valid cube stays valid under every move, and a move never turns an
/// invalid cube into a valid one.
pub proof fn lemma_apply_preserves_valid(c: Cube3x3x3, m: Move)
    ensures
        cube_valid(spec_apply(c, m)) == cube_valid(c),
{
    let a = spec_apply(c, m);
    assert forall|col: Color|
        #![trigger center_count(a, col)]
        #![trigger center_count(c, col)]
        center_count(a, col) == center_count(c, col) by {
        lemma_apply_preserves_role_counts(c, m, col);
    }
    assert forall|col: Color|
        #![trigger edge_count(a, col)]
        #![trigger edge_count(c, col)]
        edge_count(a, col) == edge_count(c, col) by {
        lemma_apply_preserves_role_counts(c, m, col);
    }
    assert forall|col: Color|
        #![trigger corner_count(a, col)]
        #![trigger corner_count(c, col)]
        corner_count(a, col) == corner_count(c, col) by {
        lemma_apply_preserves_role_counts(c, m, col);
    }
    assert(centers_valid(a) == centers_valid(c));
    assert(edges_valid(a) == edges_valid(c));
    assert(corners_valid(a) == corners_valid(c));
}

/// Round trip: a move followed by its inverse restores the cube exactly.
proof fn lemma_cancel_tl(c: Cube3x3x3)
    ensures
        spec_apply(spec_apply(c, Move::TopRotateLeft), spec_inverse(Move::TopRotateLeft)) == c,
{
    reveal(spec_apply);
}
proof fn lemma_cancel_tr(c: Cube3x3x3)
    ensures
        spec_apply(spec_apply(c, Move::TopRotateRight), spec_inverse(Move::TopRotateRight)) == c,
{
    reveal(spec_apply);
}
proof fn lemma_cancel_bl(c: Cube3x3x3)
    ensures
        spec_apply(spec_apply(c, Move::BottomRotateLeft), spec_inverse(Move::BottomRotateLeft)) == c,
{
    reveal(spec_apply);
}
proof fn lemma_cancel_br(c: Cube3x3x3)
    ensures
        spec_apply(spec_apply(c, Move::BottomRotateRight), spec_inverse(Move::BottomRotateRight)) == c,
{
    reveal(spec_apply);
}
proof fn lemma_cancel_lu(c: Cube3x3x3)
    ensures
        spec_apply(spec_apply(c, Move::LeftRotateUp), spec_inverse(Move::LeftRotateUp)) == c,
{
    reveal(spec_apply);
}
proof fn lemma_cancel_ld(c: Cube3x3x3)
    ensures
        spec_apply(spec_apply(c, Move::LeftRotateDown), spec_inverse(Move::LeftRotateDown)) == c,
{
    reveal(spec_apply);
}
proof fn lemma_cancel_ru(c: Cube3x3x3)
    ensures
        spec_apply(spec_apply(c, Move::RightRotateUp), spec_inverse(Move::RightRotateUp)) == c,
{
    reveal(spec_apply);
}
proof fn lemma_cancel_rd(c: Cube3x3x3)
    ensures
        spec_apply(spec_apply(c, Move::RightRotateDown), spec_inverse(Move::RightRotateDown)) == c,
{
    reveal(spec_apply);
}

pub proof fn lemma_apply_then_inverse(c: Cube3x3x3, m: Move)
    ensures
        spec_apply(spec_apply(c, m), spec_inverse(m)) == c,
{
    match m {
        Move::TopRotateLeft => lemma_cancel_tl(c),
        Move::TopRotateRight => lemma_cancel_tr(c),
        Move::BottomRotateLeft => lemma_cancel_bl(c),
        Move::BottomRotateRight => lemma_cancel_br(c),
        Move::LeftRotateUp => lemma_cancel_lu(c),
        Move::LeftRotateDown => lemma_cancel_ld(c),
        Move::RightRotateUp => lemma_cancel_ru(c),
        Move::RightRotateDown => lemma_cancel_rd(c),
    }
}

/// The inverse of a move's inverse is the move itself.
pub proof fn lemma_inverse_involution(m: Move)
    ensures
        spec_inverse(spec_inverse(m)) == m,
{
}

/// Four equal quarter-turns restore the cube exactly.
proof fn lemma_four_tl(c: Cube3x3x3)
    ensures
        spec_apply(
            spec_apply(spec_apply(spec_apply(c, Move::TopRotateLeft), Move::TopRotateLeft), Move::TopRotateLeft),
            Move::TopRotateLeft,
        ) == c,
{
    reveal(spec_apply);
}
proof fn lemma_four_tr(c: Cube3x3x3)
    ensures
        spec_apply(
            spec_apply(spec_apply(spec_apply(c, Move::TopRotateRight), Move::TopRotateRight), Move::TopRotateRight),
            Move::TopRotateRight,
        ) == c,
{
    reveal(spec_apply);
}
proof fn lemma_four_bl(c: Cube3x3x3)
    ensures
        spec_apply(
            spec_apply(spec_apply(spec_apply(c, Move::BottomRotateLeft), Move::BottomRotateLeft), Move::BottomRotateLeft),
            Move::BottomRotateLeft,
        ) == c,
{
    reveal(spec_apply);
}
proof fn lemma_four_br(c: Cube3x3x3)
    ensures
        spec_apply(
            spec_apply(spec_apply(spec_apply(c, Move::BottomRotateRight), Move::BottomRotateRight), Move::BottomRotateRight),
            Move::BottomRotateRight,
        ) == c,
{
    reveal(spec_apply);
}
proof fn lemma_four_lu(c: Cube3x3x3)
    ensures
        spec_apply(
            spec_apply(spec_apply(spec_apply(c, Move::LeftRotateUp), Move::LeftRotateUp), Move::LeftRotateUp),
            Move::LeftRotateUp,
        ) == c,
{
    reveal(spec_apply);
}
proof fn lemma_four_ld(c: Cube3x3x3)
    ensures
        spec_apply(
            spec_apply(spec_apply(spec_apply(c, Move::LeftRotateDown), Move::LeftRotateDown), Move::LeftRotateDown),
            Move::LeftRotateDown,
        ) == c,
{
    reveal(spec_apply);
}
proof fn lemma_four_ru(c: Cube3x3x3)
    ensures
        spec_apply(
            spec_apply(spec_apply(spec_apply(c, Move::RightRotateUp), Move::RightRotateUp), Move::RightRotateUp),
            Move::RightRotateUp,
        ) == c,
{
    reveal(spec_apply);
}
proof fn lemma_four_rd(c: Cube3x3x3)
    ensures
        spec_apply(
            spec_apply(spec_apply(spec_apply(c, Move::RightRotateDown), Move::RightRotateDown), Move::RightRotateDown),
            Move::RightRotateDown,
        ) == c,
{
    reveal(spec_apply);
}

pub proof fn lemma_four_turns(c: Cube3x3x3, m: Move)
    ensures
        spec_apply(spec_apply(spec_apply(spec_apply(c, m), m), m), m) == c,
{
    match m {
        Move::TopRotateLeft => lemma_four_tl(c),
        Move::TopRotateRight => lemma_four_tr(c),
        Move::BottomRotateLeft => lemma_four_bl(c),
        Move::BottomRotateRight => lemma_four_br(c),
        Move::LeftRotateUp => lemma_four_lu(c),
        Move::LeftRotateDown => lemma_four_ld(c),
        Move::RightRotateUp => lemma_four_ru(c),
        Move::RightRotateDown => lemma_four_rd(c),
    }
}

} // verus!
