//! A 3x3x3 Rubik's cube library: a validated sticker model, an engine for a
//! restricted set of eight quarter-turn moves, and an iterative-deepening
//! depth-first solver that returns a shortest move sequence within a
//! configurable depth bound.

pub mod cube;
pub mod moves;
pub mod solver;

pub use cube::Color;
pub use cube::Cube3x3x3;
pub use cube::Face;
pub use cube::InvalidState;
pub use moves::Move;
pub use solver::CubeSolver;
pub use solver::SolveError;
pub use solver::SolvedCube;
pub use solver::DEFAULT_MAX_DEPTH;
