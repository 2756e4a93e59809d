//! An execution engine for external commands.
//!
//! A single command line is split into words under POSIX quoting rules,
//! validated, and turned into a program with its arguments. The engine's
//! decisions — how the four concurrent I/O lanes of a spawned child are
//! joined into one result, how a timeout race resolves, and how every
//! failure maps to a caller-visible category — are ordinary functions here,
//! each with a proved contract. The asynchronous plumbing that spawns the
//! child and drives its pipes lives outside the library and calls in for
//! every decision.

pub mod accounts;
pub mod daemon;
pub mod digits;
pub mod errors;
pub mod execution;
pub mod parser;
pub mod text;
