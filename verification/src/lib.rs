//! Hint-execution core of a register-machine virtual machine.
//!
//! A hint is a fragment of auxiliary logic, keyed to a program location,
//! that the host runs to compute values written into the machine's
//! write-once memory before deterministic execution resumes.  This crate
//! holds the relocatable address/value model, the reference-resolution
//! engine with ap-tracking correction, the execution-scope stack, the
//! compile-once/execute-many hint-processor contract, and the canonical
//! hints that exercise those primitives.

pub mod bignum;
pub mod relocatable;
pub mod errors;
pub mod bindings;
pub mod memory;
pub mod vm;
pub mod exec_scope;
pub mod builtin_runner;
pub mod hint_processor_definition;
pub mod hint_utils;
pub mod builtin_hint_processor;
