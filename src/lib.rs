//! Stack-depth based indentation for trace-style diagnostic output.
//!
//! Module [`stack`] keeps, per thread, the call-stack depth that serves as the
//! zero point of indentation, and turns a live depth into an offset.
//! Module [`indent`] maps an offset to a precomputed indentation string.
//! Module [`function_name`] takes a function's name from its path.

pub mod function_name;
pub mod indent;
pub mod stack;
