//! Engine for generating human-plausible desktop activity: a catalog of
//! randomized input operations, a two-state window-context machine gating
//! scripted typing, and a scheduler step that picks, parameterizes and
//! sequences them. The engine plans input events; performing them on the
//! operating system is left to the caller.

pub mod context;
pub mod engine;
pub mod events;
pub mod ops;
pub mod rng;

pub use context::WindowContext;
