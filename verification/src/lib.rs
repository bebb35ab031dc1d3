//! A verified host for sandboxed guest modules.
//!
//! The library covers the execution-session lifecycle and the host/guest
//! calling interface: [`store`] is the byte-keyed shared state store,
//! [`memory`] the bounds-checked marshaling in and out of a guest's linear
//! memory, [`bridge`] the closed set of host capabilities built on both,
//! and [`orchestrator`] the per-request pipeline that compiles untrusted
//! bytecode, wires the capability set into it, budgets its runtime and
//! invokes its entry point.  The sandboxing engine itself is an external
//! collaborator, reached only through the declarations in [`engine`];
//! [`guest`] holds number-theoretic helpers used by the sample guest
//! programs.

pub mod bridge;
pub mod engine;
pub mod guest;
pub mod memory;
pub mod orchestrator;
pub mod store;
