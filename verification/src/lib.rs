//! Verified core of a binding layer that exposes a native audio engine to a
//! managed scripting runtime. The binding itself is mechanical glue; what is
//! worth stating precisely lives here: the marshaling of option and state
//! values between their managed spellings and the engine's types, the registry
//! of thread-safe callback handles that must be torn down when a context
//! closes, and the plan by which the wrapper classes are registered into the
//! runtime's module exports and the internal constructor store.

pub mod engine;
pub mod marshal;
pub mod registration;
pub mod registry;
