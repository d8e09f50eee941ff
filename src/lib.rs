//! Simulation of Turing machines: a tape that is bounded on the left and grows
//! to the right on demand, and an engine that drives a user-supplied transition
//! function over it until a terminal state is reached.
pub mod bit;
pub mod divisibility;
pub mod engine;
pub mod exactly_two;
pub mod replace_ones;
pub mod tape;

pub use bit::Bit;
pub use engine::{Move, RunError, TuringStates};
pub use tape::{BoundaryViolation, TapeModel, TuringTape};
