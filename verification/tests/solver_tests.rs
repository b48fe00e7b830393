use rubik::Color;
use rubik::Color::Blue as B;
use rubik::Color::Green as G;
use rubik::Color::Orange as O;
use rubik::Color::Red as R;
use rubik::Color::White as W;
use rubik::Color::Yellow as Y;
use rubik::Cube3x3x3;
use rubik::CubeSolver;
use rubik::Face;
use rubik::Move;
use rubik::SolveError;
use rubik::DEFAULT_MAX_DEPTH;

fn uniform(c: Color) -> Face {
    Face::new(c, c, c, c, c, c, c, c, c)
}

fn solved_cube() -> Cube3x3x3 {
    Cube3x3x3::new([
        uniform(B),
        uniform(G),
        uniform(O),
        uniform(R),
        uniform(W),
        uniform(Y),
    ])
    .unwrap()
}

fn scrambled_cube() -> Cube3x3x3 {
    let faces = [
        Face::new(Y, Y, G, G, O, O, G, W, B),
        Face::new(R, O, G, Y, B, O, Y, B, W),
        Face::new(B, G, W, G, R, R, O, G, B),
        Face::new(R, W, O, B, G, Y, W, B, Y),
        Face::new(B, W, Y, W, W, B, R, O, W),
        Face::new(O, R, O, Y, Y, R, R, R, G),
    ];
    Cube3x3x3::new(faces).unwrap()
}

#[test]
fn test_example() {
    // A scrambled cube that the restricted eight-move set cannot solve
    // within the default depth bound: the solver reports that it ran out of
    // depth rather than crashing or looping.
    let cube = scrambled_cube();
    let solver = CubeSolver::new(cube);
    assert_eq!(solver.solve().unwrap_err(), SolveError::DepthExceeded);
}

#[test]
fn already_solved_cube_solves_with_empty_path() {
    let cube = solved_cube();
    let solver = CubeSolver::new(cube);
    let solved = solver.solve().unwrap();
    assert!(solved.moves_applied.is_empty());
    assert_eq!(solved.final_state, cube);
    assert!(solved.final_state.is_solved());
}

#[test]
fn one_turn_from_solved_takes_exactly_the_inverse() {
    let cube = solved_cube().apply(Move::TopRotateLeft);
    let solver = CubeSolver::new(cube);
    let solved = solver.solve().unwrap();
    assert_eq!(solved.moves_applied, vec![Move::TopRotateRight]);
    assert!(solved.final_state.is_solved());
}

#[test]
fn every_single_turn_scramble_is_solved_by_its_inverse() {
    let moves = [
        Move::TopRotateLeft,
        Move::TopRotateRight,
        Move::BottomRotateLeft,
        Move::BottomRotateRight,
        Move::LeftRotateUp,
        Move::LeftRotateDown,
        Move::RightRotateUp,
        Move::RightRotateDown,
    ];
    for m in moves {
        let cube = solved_cube().apply(m);
        let solved = CubeSolver::new(cube).solve().unwrap();
        assert_eq!(solved.moves_applied, vec![m.inverse()]);
        assert!(solved.final_state.is_solved());
    }
}

#[test]
fn two_turn_scramble_is_solved_in_two_moves() {
    let cube = solved_cube()
        .apply(Move::TopRotateLeft)
        .apply(Move::LeftRotateUp);
    let solved = CubeSolver::new(cube).solve().unwrap();
    assert_eq!(solved.moves_applied.len(), 2);
    assert!(solved.final_state.is_solved());
    // Replaying the returned moves from the scrambled cube reaches the
    // returned state.
    let mut replay = cube;
    for m in &solved.moves_applied {
        replay = replay.apply(*m);
    }
    assert_eq!(replay, solved.final_state);
}

#[test]
fn unreachable_within_small_bound_reports_depth_exceeded() {
    // Three quarter-turns away, searched only two deep.
    let cube = solved_cube()
        .apply(Move::TopRotateLeft)
        .apply(Move::LeftRotateUp)
        .apply(Move::RightRotateDown);
    let solver = CubeSolver::with_max_depth(cube, 2);
    assert_eq!(solver.solve().unwrap_err(), SolveError::DepthExceeded);
}

#[test]
fn three_turn_scramble_is_solved_within_default_depth() {
    assert!(DEFAULT_MAX_DEPTH >= 3);
    let cube = solved_cube()
        .apply(Move::RightRotateUp)
        .apply(Move::BottomRotateLeft)
        .apply(Move::RightRotateUp);
    let solved = CubeSolver::new(cube).solve().unwrap();
    assert!(solved.moves_applied.len() <= 3);
    assert!(solved.final_state.is_solved());
}
