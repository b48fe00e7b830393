use rubik::Color;
use rubik::Color::Blue as B;
use rubik::Color::Green as G;
use rubik::Color::Orange as O;
use rubik::Color::Red as R;
use rubik::Color::White as W;
use rubik::Color::Yellow as Y;
use rubik::Cube3x3x3;
use rubik::Face;
use rubik::InvalidState;
use rubik::Move;

fn uniform(c: Color) -> Face {
    Face::new(c, c, c, c, c, c, c, c, c)
}

fn solved_cube() -> Cube3x3x3 {
    Cube3x3x3::new([
        uniform(B),
        uniform(G),
        uniform(O),
        uniform(R),
        uniform(W),
        uniform(Y),
    ])
    .unwrap()
}

fn scrambled_cube() -> Cube3x3x3 {
    let faces = [
        Face::new(Y, Y, G, G, O, O, G, W, B),
        Face::new(R, O, G, Y, B, O, Y, B, W),
        Face::new(B, G, W, G, R, R, O, G, B),
        Face::new(R, W, O, B, G, Y, W, B, Y),
        Face::new(B, W, Y, W, W, B, R, O, W),
        Face::new(O, R, O, Y, Y, R, R, R, G),
    ];
    Cube3x3x3::new(faces).unwrap()
}

const ALL_MOVES: [Move; 8] = [
    Move::TopRotateLeft,
    Move::TopRotateRight,
    Move::BottomRotateLeft,
    Move::BottomRotateRight,
    Move::LeftRotateUp,
    Move::LeftRotateDown,
    Move::RightRotateUp,
    Move::RightRotateDown,
];

const ALL_COLORS: [Color; 6] = [B, G, O, R, W, Y];

#[test]
fn solved_cube_is_solved() {
    assert!(solved_cube().is_solved());
}

#[test]
fn two_swapped_stickers_not_solved() {
    // Swap two corner stickers between the front and top faces: still a
    // valid cube (per-role counts unchanged), but no longer solved.
    let faces = [
        Face::new(W, B, B, B, B, B, B, B, B),
        uniform(G),
        uniform(O),
        uniform(R),
        Face::new(B, W, W, W, W, W, W, W, W),
        uniform(Y),
    ];
    let cube = Cube3x3x3::new(faces).unwrap();
    assert!(!cube.is_solved());
}

#[test]
fn scrambled_cube_not_solved() {
    assert!(!scrambled_cube().is_solved());
}

#[test]
fn any_move_unsolves_a_solved_cube() {
    for m in ALL_MOVES {
        assert!(!solved_cube().apply(m).is_solved());
    }
}

#[test]
fn duplicate_center_is_rejected() {
    let faces = [
        uniform(B),
        uniform(B),
        uniform(O),
        uniform(R),
        uniform(W),
        uniform(Y),
    ];
    assert_eq!(Cube3x3x3::new(faces), Err(InvalidState::Centers));
}

#[test]
fn bad_edge_distribution_is_rejected() {
    // Centers and corners are fine, but one blue edge sticker sits where a
    // green one should: blue appears five times on edges, green three.
    let faces = [
        uniform(B),
        Face::new(G, B, G, G, G, G, G, G, G),
        uniform(O),
        uniform(R),
        uniform(W),
        uniform(Y),
    ];
    assert_eq!(Cube3x3x3::new(faces), Err(InvalidState::Edges));
}

#[test]
fn bad_corner_distribution_is_rejected() {
    // Centers and edges are fine; corner stickers of two colors traded
    // unevenly.
    let faces = [
        Face::new(G, B, B, B, B, B, B, B, B),
        Face::new(B, G, G, G, G, G, G, G, B),
        Face::new(G, O, O, O, O, O, O, O, O),
        Face::new(O, R, R, R, R, R, R, R, O),
        Face::new(R, W, W, W, W, W, W, W, R),
        Face::new(W, Y, Y, Y, Y, Y, Y, Y, W),
    ];
    assert_eq!(Cube3x3x3::new(faces), Err(InvalidState::Corners));
}

#[test]
fn moves_preserve_color_counts() {
    for m in ALL_MOVES {
        let before = scrambled_cube();
        let after = before.apply(m);
        for col in ALL_COLORS {
            assert_eq!(after.color_count(col), before.color_count(col));
            assert_eq!(before.color_count(col), 9);
        }
    }
}

#[test]
fn move_then_inverse_is_identity() {
    for m in ALL_MOVES {
        let c = scrambled_cube();
        assert_eq!(c.apply(m).apply(m.inverse()), c);
        assert_eq!(c.apply(m.inverse()).apply(m), c);
    }
}

#[test]
fn inverse_pairs() {
    assert_eq!(Move::TopRotateLeft.inverse(), Move::TopRotateRight);
    assert_eq!(Move::TopRotateRight.inverse(), Move::TopRotateLeft);
    assert_eq!(Move::BottomRotateLeft.inverse(), Move::BottomRotateRight);
    assert_eq!(Move::BottomRotateRight.inverse(), Move::BottomRotateLeft);
    assert_eq!(Move::LeftRotateUp.inverse(), Move::LeftRotateDown);
    assert_eq!(Move::LeftRotateDown.inverse(), Move::LeftRotateUp);
    assert_eq!(Move::RightRotateUp.inverse(), Move::RightRotateDown);
    assert_eq!(Move::RightRotateDown.inverse(), Move::RightRotateUp);
}

#[test]
fn four_quarter_turns_are_identity() {
    for m in ALL_MOVES {
        let c = scrambled_cube();
        let turned = c.apply(m).apply(m).apply(m).apply(m);
        assert_eq!(turned, c);
        let s = solved_cube();
        assert_eq!(s.apply(m).apply(m).apply(m).apply(m), s);
    }
}

#[test]
fn moves_keep_every_center() {
    for m in ALL_MOVES {
        let c = scrambled_cube();
        let a = c.apply(m);
        assert_eq!(a.front.center, c.front.center);
        assert_eq!(a.left.center, c.left.center);
        assert_eq!(a.back.center, c.back.center);
        assert_eq!(a.right.center, c.right.center);
        assert_eq!(a.top.center, c.top.center);
        assert_eq!(a.bottom.center, c.bottom.center);
    }
}
