//! The cube model: sticker colors, a single face, and the full cube with its
//! construction-time counting invariants.

use vstd::prelude::*;

verus! {

/// One of the six sticker colors of a standard cube.
#[derive(Copy, Clone, Debug, PartialEq, Eq, Structural)]
pub enum Color {
    Blue,
    Green,
    Orange,
    Red,
    White,
    Yellow,
}

/// One 3x3 face of the cube: nine stickers named by their position in the
/// grid, as seen from outside the cube (rows top to bottom, left to right).
#[derive(Copy, Clone, Debug, PartialEq, Eq, Structural)]
pub struct Face {
    pub top_left: Color,
    pub top: Color,
    pub top_right: Color,
    pub left: Color,
    pub center: Color,
    pub right: Color,
    pub bottom_left: Color,
    pub bottom: Color,
    pub bottom_right: Color,
}

/// All nine stickers of the face show the same color.
pub open spec fn face_uniform(f: Face) -> bool {
    &&& f.top == f.top_left
    &&& f.top_right == f.top_left
    &&& f.left == f.top_left
    &&& f.center == f.top_left
    &&& f.right == f.top_left
    &&& f.bottom_left == f.top_left
    &&& f.bottom == f.top_left
    &&& f.bottom_right == f.top_left
}

impl Face {
    /// Build a face from its nine stickers, given row by row from the
    /// top-left corner. Any combination of colors is accepted: a face is
    /// only meaningful as part of a full cube, which is where validity
    /// is checked.
    pub fn new(
        tl: Color,
        t: Color,
        tr: Color,
        l: Color,
        c: Color,
        r: Color,
        bl: Color,
        b: Color,
        br: Color,
    ) -> (f: Face)
        ensures
            f == (Face {
                top_left: tl,
                top: t,
                top_right: tr,
                left: l,
                center: c,
                right: r,
                bottom_left: bl,
                bottom: b,
                bottom_right: br,
            }),
    {
        Face {
            top_left: tl,
            top: t,
            top_right: tr,
            left: l,
            center: c,
            right: r,
            bottom_left: bl,
            bottom: b,
            bottom_right: br,
        }
    }

    /// Every sticker of the face matches the top-left one.
    fn is_one_color(&self) -> (uniform: bool)
        ensures
            uniform == face_uniform(*self),
    {
        self.top == self.top_left && self.top_right == self.top_left && self.left
            == self.top_left && self.center == self.top_left && self.right == self.top_left
            && self.bottom_left == self.top_left && self.bottom == self.top_left
            && self.bottom_right == self.top_left
    }
}

/// 1 if the sticker shows the given color, 0 otherwise.
#[verifier::opaque]
pub open spec fn sticker_is(sticker: Color, col: Color) -> int {
    if sticker == col {
        1
    } else {
        0
    }
}

/// How many of a face's nine stickers show the given color.
pub open spec fn face_color_count(f: Face, col: Color) -> int {
    sticker_is(f.top_left, col) + sticker_is(f.top, col) + sticker_is(f.top_right, col)
        + sticker_is(f.left, col) + sticker_is(f.center, col) + sticker_is(f.right, col)
        + sticker_is(f.bottom_left, col) + sticker_is(f.bottom, col) + sticker_is(
        f.bottom_right,
        col,
    )
}

/// The full cube: six faces in the canonical order front, left, back,
/// right, top, bottom. The four side faces are laid out as seen when
/// facing each of them from outside; the top face is seen from above with
/// the back face away from the viewer, and the bottom face from below
/// with the front face away from the viewer.
#[derive(Copy, Clone, Debug, PartialEq, Eq, Structural)]
pub struct Cube3x3x3 {
    pub front: Face,
    pub left: Face,
    pub back: Face,
    pub right: Face,
    pub top: Face,
    pub bottom: Face,
}

/// The reason a cube was rejected at construction: which counting
/// invariant its stickers break.
#[derive(Copy, Clone, Debug, PartialEq, Eq, Structural)]
pub enum InvalidState {
    /// Some color does not appear as a center exactly once.
    Centers,
    /// Some color does not appear on edge positions exactly four times.
    Edges,
    /// Some color does not appear on corner positions exactly four times.
    Corners,
}

/// How many faces have a center of the given color.
pub open spec fn center_count(c: Cube3x3x3, col: Color) -> int {
    sticker_is(c.front.center, col) + sticker_is(c.left.center, col) + sticker_is(
        c.back.center,
        col,
    ) + sticker_is(c.right.center, col) + sticker_is(c.top.center, col) + sticker_is(
        c.bottom.center,
        col,
    )
}

/// How many of a face's four edge stickers (the non-corner border
/// positions) show the given color.
pub open spec fn face_edge_count(f: Face, col: Color) -> int {
    sticker_is(f.top, col) + sticker_is(f.left, col) + sticker_is(f.right, col) + sticker_is(
        f.bottom,
        col,
    )
}

/// How many of a face's four corner stickers show the given color.
pub open spec fn face_corner_count(f: Face, col: Color) -> int {
    sticker_is(f.top_left, col) + sticker_is(f.top_right, col) + sticker_is(f.bottom_left, col)
        + sticker_is(f.bottom_right, col)
}

/// How many edge stickers of the whole cube show the given color.
pub open spec fn edge_count(c: Cube3x3x3, col: Color) -> int {
    face_edge_count(c.front, col) + face_edge_count(c.left, col) + face_edge_count(c.back, col)
        + face_edge_count(c.right, col) + face_edge_count(c.top, col) + face_edge_count(
        c.bottom,
        col,
    )
}

/// How many corner stickers of the whole cube show the given color.
pub open spec fn corner_count(c: Cube3x3x3, col: Color) -> int {
    face_corner_count(c.front, col) + face_corner_count(c.left, col) + face_corner_count(
        c.back,
        col,
    ) + face_corner_count(c.right, col) + face_corner_count(c.top, col) + face_corner_count(
        c.bottom,
        col,
    )
}

/// How many of the cube's 54 stickers show the given color.
pub open spec fn color_count(c: Cube3x3x3, col: Color) -> int {
    face_color_count(c.front, col) + face_color_count(c.left, col) + face_color_count(c.back, col)
        + face_color_count(c.right, col) + face_color_count(c.top, col) + face_color_count(
        c.bottom,
        col,
    )
}

/// Every color is the center of exactly one face.
pub open spec fn centers_valid(c: Cube3x3x3) -> bool {
    forall|col: Color| #[trigger] center_count(c, col) == 1
}

/// Every color appears on edge positions exactly four times.
pub open spec fn edges_valid(c: Cube3x3x3) -> bool {
    forall|col: Color| #[trigger] edge_count(c, col) == 4
}

/// Every color appears on corner positions exactly four times.
pub open spec fn corners_valid(c: Cube3x3x3) -> bool {
    forall|col: Color| #[trigger] corner_count(c, col) == 4
}

/// The construction-time invariant of a cube: each color is a center once,
/// an edge sticker four times, and a corner sticker four times.
pub open spec fn cube_valid(c: Cube3x3x3) -> bool {
    centers_valid(c) && edges_valid(c) && corners_valid(c)
}

/// Every face of the cube is uniformly one color.
pub open spec fn cube_solved(c: Cube3x3x3) -> bool {
    &&& face_uniform(c.front)
    &&& face_uniform(c.left)
    &&& face_uniform(c.back)
    &&& face_uniform(c.right)
    &&& face_uniform(c.top)
    &&& face_uniform(c.bottom)
}

/// The cube assembled from six faces in the canonical order
/// front, left, back, right, top, bottom.
pub open spec fn cube_of_faces(faces: [Face; 6]) -> Cube3x3x3 {
    Cube3x3x3 {
        front: faces@[0],
        left: faces@[1],
        back: faces@[2],
        right: faces@[3],
        top: faces@[4],
        bottom: faces@[5],
    }
}

/// The error a cube's stickers earn, checking centers first, then edges,
/// then corners.
pub open spec fn invalid_reason(c: Cube3x3x3) -> InvalidState {
    if !centers_valid(c) {
        InvalidState::Centers
    } else if !edges_valid(c) {
        InvalidState::Edges
    } else {
        InvalidState::Corners
    }
}


impl Cube3x3x3 {
    /// 1 if the sticker shows the given color, 0 otherwise.
    fn indicator(sticker: Color, col: Color) -> (n: usize)
        ensures
            n == sticker_is(sticker, col),
            n <= 1,
    {
        proof {
            reveal(sticker_is);
        }
        if sticker == col {
            1
        } else {
            0
        }
    }

    /// How many faces have a center of the given color.
    fn count_centers(&self, col: Color) -> (n: usize)
        ensures
            n == center_count(*self, col),
    {
        let mut n: usize = Self::indicator(self.front.center, col);
        n = n + Self::indicator(self.left.center, col);
        assert(n <= 2);
        assert(n == sticker_is(self.front.center, col) + sticker_is(self.left.center, col));
        n = n + Self::indicator(self.back.center, col);
        assert(n <= 3);
        n = n + Self::indicator(self.right.center, col);
        assert(n <= 4);
        assert(n == sticker_is(self.front.center, col) + sticker_is(self.left.center, col)
            + sticker_is(self.back.center, col) + sticker_is(self.right.center, col));
        n = n + Self::indicator(self.top.center, col);
        assert(n <= 5);
        n = n + Self::indicator(self.bottom.center, col);
        assert(n <= 6);
        n
    }

    /// How many of one face's edge stickers show the given color.
    fn count_face_edges(f: &Face, col: Color) -> (n: usize)
        ensures
            n == face_edge_count(*f, col),
            n <= 4,
    {
        let mut n: usize = Self::indicator(f.top, col);
        n = n + Self::indicator(f.left, col);
        assert(n <= 2);
        assert(n == sticker_is(f.top, col) + sticker_is(f.left, col));
        n = n + Self::indicator(f.right, col);
        assert(n <= 3);
        n = n + Self::indicator(f.bottom, col);
        assert(n <= 4);
        n
    }

    /// How many of one face's corner stickers show the given color.
    fn count_face_corners(f: &Face, col: Color) -> (n: usize)
        ensures
            n == face_corner_count(*f, col),
            n <= 4,
    {
        let mut n: usize = Self::indicator(f.top_left, col);
        n = n + Self::indicator(f.top_right, col);
        assert(n <= 2);
        assert(n == sticker_is(f.top_left, col) + sticker_is(f.top_right, col));
        n = n + Self::indicator(f.bottom_left, col);
        assert(n <= 3);
        n = n + Self::indicator(f.bottom_right, col);
        assert(n <= 4);
        n
    }

    /// How many edge stickers of the cube show the given color.
    fn count_edges(&self, col: Color) -> (n: usize)
        ensures
            n == edge_count(*self, col),
    {
        let mut n: usize = Self::count_face_edges(&self.front, col);
        n = n + Self::count_face_edges(&self.left, col);
        assert(n <= 8);
        assert(n == face_edge_count(self.front, col) + face_edge_count(self.left, col));
        n = n + Self::count_face_edges(&self.back, col);
        assert(n <= 12);
        assert(n == face_edge_count(self.front, col) + face_edge_count(self.left, col)
            + face_edge_count(self.back, col));
        n = n + Self::count_face_edges(&self.right, col);
        assert(n <= 16);
        assert(n == face_edge_count(self.front, col) + face_edge_count(self.left, col)
            + face_edge_count(self.back, col) + face_edge_count(self.right, col));
        n = n + Self::count_face_edges(&self.top, col);
        assert(n <= 20);
        n = n + Self::count_face_edges(&self.bottom, col);
        assert(n <= 24);
        n
    }

    /// How many corner stickers of the cube show the given color.
    fn count_corners(&self, col: Color) -> (n: usize)
        ensures
            n == corner_count(*self, col),
    {
        let mut n: usize = Self::count_face_corners(&self.front, col);
        n = n + Self::count_face_corners(&self.left, col);
        assert(n <= 8);
        assert(n == face_corner_count(self.front, col) + face_corner_count(self.left, col));
        n = n + Self::count_face_corners(&self.back, col);
        assert(n <= 12);
        assert(n == face_corner_count(self.front, col) + face_corner_count(self.left, col)
            + face_corner_count(self.back, col));
        n = n + Self::count_face_corners(&self.right, col);
        assert(n <= 16);
        assert(n == face_corner_count(self.front, col) + face_corner_count(self.left, col)
            + face_corner_count(self.back, col) + face_corner_count(self.right, col));
        n = n + Self::count_face_corners(&self.top, col);
        assert(n <= 20);
        n = n + Self::count_face_corners(&self.bottom, col);
        assert(n <= 24);
        n
    }

    /// How many of one face's nine stickers show the given color.
    fn count_face(f: &Face, col: Color) -> (n: usize)
        ensures
            n == face_color_count(*f, col),
            n <= 9,
    {
        let mut n: usize = Self::indicator(f.top_left, col);
        n = n + Self::indicator(f.top, col);
        assert(n <= 2);
        assert(n == sticker_is(f.top_left, col) + sticker_is(f.top, col));
        n = n + Self::indicator(f.top_right, col);
        assert(n <= 3);
        n = n + Self::indicator(f.left, col);
        assert(n <= 4);
        assert(n == sticker_is(f.top_left, col) + sticker_is(f.top, col) + sticker_is(
            f.top_right,
            col,
        ) + sticker_is(f.left, col));
        n = n + Self::indicator(f.center, col);
        assert(n <= 5);
        n = n + Self::indicator(f.right, col);
        assert(n <= 6);
        assert(n == sticker_is(f.top_left, col) + sticker_is(f.top, col) + sticker_is(
            f.top_right,
            col,
        ) + sticker_is(f.left, col) + sticker_is(f.center, col) + sticker_is(f.right, col));
        n = n + Self::indicator(f.bottom_left, col);
        assert(n <= 7);
        n = n + Self::indicator(f.bottom, col);
        assert(n <= 8);
        assert(n == sticker_is(f.top_left, col) + sticker_is(f.top, col) + sticker_is(
            f.top_right,
            col,
        ) + sticker_is(f.left, col) + sticker_is(f.center, col) + sticker_is(f.right, col)
            + sticker_is(f.bottom_left, col) + sticker_is(f.bottom, col));
        n = n + Self::indicator(f.bottom_right, col);
        assert(n <= 9);
        n
    }

    /// How many of the cube's 54 stickers show the given color.
    pub fn color_count(&self, col: Color) -> (n: usize)
        ensures
            n == color_count(*self, col),
    {
        let mut n: usize = Self::count_face(&self.front, col);
        n = n + Self::count_face(&self.left, col);
        assert(n <= 18);
        assert(n == face_color_count(self.front, col) + face_color_count(self.left, col));
        n = n + Self::count_face(&self.back, col);
        assert(n <= 27);
        assert(n == face_color_count(self.front, col) + face_color_count(self.left, col)
            + face_color_count(self.back, col));
        n = n + Self::count_face(&self.right, col);
        assert(n <= 36);
        assert(n == face_color_count(self.front, col) + face_color_count(self.left, col)
            + face_color_count(self.back, col) + face_color_count(self.right, col));
        n = n + Self::count_face(&self.top, col);
        assert(n <= 45);
        n = n + Self::count_face(&self.bottom, col);
        assert(n <= 54);
        n
    }

    /// Every color is a center exactly once.
    fn centers_ok(&self) -> (ok: bool)
        ensures
            ok == centers_valid(*self),
    {
        let ok = self.count_centers(Color::Blue) == 1 && self.count_centers(Color::Green) == 1
            && self.count_centers(Color::Orange) == 1 && self.count_centers(Color::Red) == 1
            && self.count_centers(Color::White) == 1 && self.count_centers(Color::Yellow) == 1;
        proof {
            if ok {
                assert forall|col: Color| #[trigger] center_count(*self, col) == 1 by {
                    match col {
                        Color::Blue => {},
                        Color::Green => {},
                        Color::Orange => {},
                        Color::Red => {},
                        Color::White => {},
                        Color::Yellow => {},
                    }
                }
            }
        }
        ok
    }

    /// Every color is an edge sticker exactly four times.
    fn edges_ok(&self) -> (ok: bool)
        ensures
            ok == edges_valid(*self),
    {
        let ok = self.count_edges(Color::Blue) == 4 && self.count_edges(Color::Green) == 4
            && self.count_edges(Color::Orange) == 4 && self.count_edges(Color::Red) == 4
            && self.count_edges(Color::White) == 4 && self.count_edges(Color::Yellow) == 4;
        proof {
            if ok {
                assert forall|col: Color| #[trigger] edge_count(*self, col) == 4 by {
                    match col {
                        Color::Blue => {},
                        Color::Green => {},
                        Color::Orange => {},
                        Color::Red => {},
                        Color::White => {},
                        Color::Yellow => {},
                    }
                }
            }
        }
        ok
    }

    /// Every color is a corner sticker exactly four times.
    fn corners_ok(&self) -> (ok: bool)
        ensures
            ok == corners_valid(*self),
    {
        let ok = self.count_corners(Color::Blue) == 4 && self.count_corners(Color::Green) == 4
            && self.count_corners(Color::Orange) == 4 && self.count_corners(Color::Red) == 4
            && self.count_corners(Color::White) == 4 && self.count_corners(Color::Yellow) == 4;
        proof {
            if ok {
                assert forall|col: Color| #[trigger] corner_count(*self, col) == 4 by {
                    match col {
                        Color::Blue => {},
                        Color::Green => {},
                        Color::Orange => {},
                        Color::Red => {},
                        Color::White => {},
                        Color::Yellow => {},
                    }
                }
            }
        }
        ok
    }

    /// All three counting invariants hold.
    fn is_valid(&self) -> (ok: bool)
        ensures
            ok == cube_valid(*self),
    {
        self.centers_ok() && self.edges_ok() && self.corners_ok()
    }

    /// Assemble a cube from six faces, given in the canonical order
    /// front, left, back, right, top, bottom. Succeeds exactly when the
    /// stickers satisfy the counting invariants; otherwise reports the
    /// first invariant that fails, checking centers, then edges, then
    /// corners.
    pub fn new(faces: [Face; 6]) -> (r: Result<Cube3x3x3, InvalidState>)
        ensures
            match r {
                Ok(c) => c == cube_of_faces(faces) && cube_valid(c),
                Err(e) => !cube_valid(cube_of_faces(faces)) && e == invalid_reason(
                    cube_of_faces(faces),
                ),
            },
    {
        let cube = Cube3x3x3 {
            front: faces[0],
            left: faces[1],
            back: faces[2],
            right: faces[3],
            top: faces[4],
            bottom: faces[5],
        };
        if !cube.centers_ok() {
            return Err(InvalidState::Centers);
        }
        if !cube.edges_ok() {
            return Err(InvalidState::Edges);
        }
        if !cube.corners_ok() {
            return Err(InvalidState::Corners);
        }
        Ok(cube)
    }

    /// Every face of the cube shows a single color on all nine stickers.
    pub fn is_solved(&self) -> (solved: bool)
        ensures
            solved == cube_solved(*self),
    {
        self.front.is_one_color() && self.left.is_one_color() && self.back.is_one_color()
            && self.right.is_one_color() && self.top.is_one_color() && self.bottom.is_one_color()
    }
}

} // verus!
