//! What holds of lowered functions.

mod arith;
pub mod canonical;
pub mod contents;
pub mod effects;
pub mod execution;
pub mod function;
pub mod lowering;
mod memory;
mod moves;
mod numeric;
pub mod numbers;
mod patterns;
pub mod program;
pub mod results;
mod shifts;
pub mod uniform;
