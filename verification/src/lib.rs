//! A positional text-edit engine: a buffer with a cursor, the four edit
//! operations that act on it, their JSON wire form, and a replay harness
//! that checks whether a log of operations turns one text into another.
//! Beside it stand a few small functions on lists of integers and on
//! timestamps.

pub mod operation;
pub mod document;
pub mod laws;
pub mod wire;
pub mod replay;
pub mod ordering;
pub mod decimal;
pub mod diag;
pub mod lonely;
pub mod minmax;
pub mod ratio;
pub mod time;
pub mod zig_zag;
