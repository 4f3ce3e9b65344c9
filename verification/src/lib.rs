//! Typed, read-only views over a generic tree document.
//!
//! A [`node::Node`] is an immutable tree of nodes (null, boolean, number,
//! string, ordered sequence, string-keyed mapping), owned by the caller.
//! A typed view such as [`test_script::TestScript`] borrows one node and
//! exposes per-field accessors that look a key up, check the value's shape,
//! and either extract a primitive or wrap the sub-node in a nested view.
//! Malformed values surface as typed errors rather than aborting, and
//! `validate` aggregates every shape violation found in the document.

pub mod engine;
pub mod error;
pub mod laws;
pub mod node;
pub mod status;
pub mod test_script;
