//! A randomized differential tester for implementations of a MIPS subset.
//!
//! `machine` holds the reference machine and `instr` and `catalog` the
//! instructions it executes; `gen` builds random programs for it, `log`
//! reads and writes the lines of a write trace, and `oracle` holds the
//! trace of an implementation against the writes that the machine logged.

pub mod bits;
pub mod catalog;
pub mod encoding;
pub mod gen;
pub mod instr;
pub mod log;
pub mod machine;
pub mod oracle;
pub mod text;
