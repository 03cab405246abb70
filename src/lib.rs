//! Embedding boundary between a host and a bytecode scripting engine: the
//! flat report of one run, and the table of host functions a script may call.
pub mod outcome;
pub mod session;
