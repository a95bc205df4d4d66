//! The hailstone (Collatz) step, its heuristic inverse, bounded sequences
//! of forward steps, and the decisions of a driver that prints them.

pub mod driver;
pub mod sequence;
pub mod step;

pub use driver::{Action, Driver};
pub use sequence::generate_sequence;
pub use step::{hail, unhail};
