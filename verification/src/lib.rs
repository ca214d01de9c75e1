//! Deterministic message-execution core of a blockchain virtual machine.
//!
//! A message (sender, recipient, value, method, gas terms) is applied to a
//! content-addressed state tree of actors. The executor validates the message,
//! the call manager drives the (possibly nested) invocation under a single
//! shared gas budget, and the machine owns the state tree and the loadable
//! actor code. Every failure resolves to a well-formed receipt; a failed
//! invocation reverts exactly to the state snapshot taken when it began.

pub mod address;
pub mod call_manager;
pub mod code;
pub mod machine;
pub mod econ;
pub mod executor;
pub mod state_tree;
pub mod gas;

