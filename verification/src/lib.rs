//! Timeline management for procedural animation: the lifecycle of an
//! animation (repetitions, pausing, finishing, what happens after each tick)
//! and the data of the curve combinators.
pub mod combinators;
pub mod deprecated;
pub mod laws;
pub mod lifecycle;
