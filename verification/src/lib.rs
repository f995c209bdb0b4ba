//! A fixed-size grid of binary-state cells with a deterministic
//! initialization rule, a pure text renderer, and a narrow capability
//! interface through which an embedding host receives diagnostics and
//! rendered output.

pub mod adapter;
pub mod grid;
pub mod render;
