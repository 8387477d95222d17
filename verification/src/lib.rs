//! A verified translator from the parsed, name-based textual form of an SSA
//! program into an in-memory compiler IR of functions, basic blocks, typed
//! values, instructions and terminators. The translator reconstructs
//! cross-referencing structure (forward block jumps, inter-function calls,
//! block parameters) from the flat textual form, enforcing the
//! single-assignment property and rejecting malformed references.

pub mod builder;
pub mod translator;
pub mod im_list;
pub mod laws;
pub mod ir;
pub mod name_map;
pub mod types;
