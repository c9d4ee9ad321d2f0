//! A big-step interpreter for a small imperative language: arithmetic over
//! `u64` with variables, boolean tests, and commands that update a store.

pub mod env;
pub mod error;
pub mod lang;
pub mod laws;
pub mod no_commd;

pub use env::Env;
pub use error::EvalError;
pub use lang::{Arith, Booln, Commd};
