//! Verified core of the bridge between Rust futures and Python's asyncio.
//!
//! The decisions the bindings take on what the Python interpreter and the Rust runtimes report
//! are made here, with exact contracts proved by Verus. The functions that call into Python state
//! which calls they make, on which objects and with which arguments, in what order, and what they
//! return for every answer; what Python answers is taken as it comes. The runtimes themselves are
//! driven outside.

pub mod attr_check;
pub mod bridge;
pub mod call_laws;
pub mod event_loop;
pub mod harness;
pub mod legacy;
pub mod python;
pub mod steps;
pub mod task_locals;
