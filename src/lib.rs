//! An adaptive fuzzer that searches for pairs of inputs whose instruction
//! counts differ when a WebAssembly target processes them, and a Welch's
//! t-test that decides whether such a difference is real.

pub mod check;
pub mod count;
pub mod dudect;
pub mod errors;
pub mod fuzz;
pub mod rng;
pub mod wasm;
pub mod optimizer;
pub mod util;
